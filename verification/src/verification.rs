//! Registration and the single-use tokens: email verification and password
//! reset. A token travels as `"{user id}:{secret}"`; the store keeps only
//! the digest of the secret, and a token is marked used once accepted.

use vstd::prelude::*;
use crate::clock::Timestamp;
use crate::combined::{
    colon_free, combined_text, format_combined_token, named_id, parse_combined,
    parse_combined_token,
};
use crate::email::{mail_to, EmailRecipient, TokenMail};
use crate::entity::{
    NewEmailVerificationToken, NewPasswordResetToken, NewTokenView, NewUser, NewUserView,
    PasswordResetToken, TokenView, User, UserView,
};
use crate::errors::{AppError, AppErrorView, FieldErrorView, ValidationErrors};
use crate::ids::{is_random_identifier_text, lemma_hyphenated_has_no_colon, Uuid};
use crate::password::{argon2_verdict, secret_matches, PasswordService};
use crate::repository::{
    email_taken, found_by_email, is_latest_unused, new_token_row, new_user_row, with_password,
    with_used, with_verified, SessionRepository, UserRepository, VerificationTokenRepository,
};
use crate::service::{at_most_one_added, AuthService};

verus! {

/// How long an email-verification token lives: 24 hours.
pub const VERIFICATION_TTL_MICROS: i64 = 86_400_000_000;

/// How long a password-reset token lives: 15 minutes.
pub const RESET_TTL_MICROS: i64 = 900_000_000;

/// The error of a token that was already used: a validation error without
/// entries.
pub open spec fn already_used() -> AppErrorView {
    AppErrorView::ValidationError(Seq::<FieldErrorView>::empty())
}

/// The error of a single-use token past its expiry, of either kind.
pub open spec fn token_expired() -> AppErrorView {
    AppErrorView::Unauthorized("Token expired"@)
}

/// Whether the single-use token that was found is accepted with `secret`
/// at `now`, and the error if not. The chain is the same for both kinds:
/// found, unused, secret accepted, not expired. A used token is refused
/// whatever its expiry.
pub open spec fn single_use_verdict(found: Option<TokenView>, secret: Seq<char>, now: Timestamp)
    -> Result<TokenView, AppErrorView> {
    match found {
        None => Err(AppErrorView::Unauthorized("Invalid or expired token"@)),
        Some(t) => if t.used {
            Err(already_used())
        } else {
            match argon2_verdict(secret, t.token_hash) {
                None => Err(AppErrorView::InternalError),
                Some(false) => Err(AppErrorView::Unauthorized("Invalid token"@)),
                Some(true) => if t.expires_at.micros < now.micros {
                    Err(token_expired())
                } else {
                    Ok(t)
                },
            }
        },
    }
}

/// Checks the fields of a single-use token that was found.
fn check_single_use(
    token: Ghost<TokenView>,
    used: bool,
    token_hash: &str,
    expires_at: Timestamp,
    secret: &str,
    now: Timestamp,
) -> (r: Result<(), AppError>)
    requires
        token@.used == used,
        token@.token_hash == token_hash@,
        token@.expires_at == expires_at,
    ensures
        match r {
            Ok(()) => single_use_verdict(Some(token@), secret@, now) == Ok::<
                TokenView,
                AppErrorView,
            >(token@),
            Err(e) => single_use_verdict(Some(token@), secret@, now) == Err::<
                TokenView,
                AppErrorView,
            >(e@),
        },
{
    if used {
        return Err(AppError::ValidationError(ValidationErrors::new()));
    }
    if !PasswordService::verify_password(secret, token_hash)? {
        return Err(AppError::unauthorized("Invalid token"));
    }
    if expires_at.is_before(now) {
        return Err(AppError::unauthorized("Token expired"));
    }
    Ok(())
}

/// A fresh random secret for a single-use token: the hyphenated text of a
/// random identifier, 36 characters without a colon, so that it can stand
/// behind the colon of a combined token.
pub fn fresh_secret() -> (secret: String)
    ensures
        is_random_identifier_text(secret@),
        secret@.len() == 36,
        colon_free(secret@),
{
    let id = Uuid::new_v4();
    proof {
        lemma_hyphenated_has_no_colon(id.value);
    }
    id.to_string()
}

/// What a single-use token that is issued at `now` hands to the store.
pub open spec fn issued_token(user_id: u128, digest: Seq<char>, now: Timestamp, ttl: i64)
    -> NewTokenView {
    NewTokenView { user_id, token_hash: digest, expires_at: now.spec_plus(ttl as int) }
}

/// The single-use tokens of one kind after one for `user_id` has been
/// stored under `token_id` at `now`, to live for `ttl` microseconds.
pub open spec fn tokens_after_issue(
    tokens: Map<u128, TokenView>,
    token_id: u128,
    user_id: u128,
    digest: Seq<char>,
    now: Timestamp,
    ttl: i64,
) -> Map<u128, TokenView> {
    tokens.insert(token_id, new_token_row(token_id, issued_token(user_id, digest, now, ttl), now))
}

impl<U: UserRepository, S: SessionRepository, V: VerificationTokenRepository> AuthService<
    U,
    S,
    V,
> {
    /// Nothing but the email-verification tokens differs between `self` and
    /// `other`.
    pub open spec fn same_but_email_tokens(&self, other: &Self) -> bool {
        &&& self.user_repo == other.user_repo
        &&& self.session_repo == other.session_repo
        &&& self.token_service == other.token_service
        &&& self.config == other.config
        &&& self.verification_repo.reliable() == other.verification_repo.reliable()
        &&& self.verification_repo.reset_tokens() == other.verification_repo.reset_tokens()
    }

    /// Nothing but the password-reset tokens differs between `self` and
    /// `other`.
    pub open spec fn same_but_reset_tokens(&self, other: &Self) -> bool {
        &&& self.user_repo == other.user_repo
        &&& self.session_repo == other.session_repo
        &&& self.token_service == other.token_service
        &&& self.config == other.config
        &&& self.verification_repo.reliable() == other.verification_repo.reliable()
        &&& self.verification_repo.email_tokens() == other.verification_repo.email_tokens()
    }

    /// The sessions and the settings are the same in `self` and `other`, and
    /// so are the roles and the reliability of the stores.
    pub open spec fn same_sessions_and_settings(&self, other: &Self) -> bool {
        &&& self.session_repo == other.session_repo
        &&& self.token_service == other.token_service
        &&& self.config == other.config
        &&& self.user_repo.reliable() == other.user_repo.reliable()
        &&& self.verification_repo.reliable() == other.verification_repo.reliable()
        &&& forall|u: u128| self.user_repo.roles_of(u) == other.user_repo.roles_of(u)
        &&& forall|n: Seq<char>| self.user_repo.known_role(n) == other.user_repo.known_role(n)
    }

    /// Stores an email-verification token for `user_id` with the digest
    /// `secret_hash`, valid for 24 hours from `now`, and returns the message
    /// that carries the combined token to `email`.
    pub fn issue_email_verification(
        &mut self,
        user_id: Uuid,
        email: &str,
        secret: &str,
        secret_hash: String,
        now: Timestamp,
    ) -> (r: Result<TokenMail, AppError>)
        ensures
            final(self).same_but_email_tokens(old(self)),
            old(self).verification_repo.reliable() ==> r is Ok,
            match r {
                Ok(mail) => {
                    &&& exists|token_id: u128|
                        {
                            &&& !old(self).verification_repo.email_tokens().contains_key(token_id)
                            &&& final(self).verification_repo.email_tokens()
                                == #[trigger] tokens_after_issue(
                                old(self).verification_repo.email_tokens(),
                                token_id,
                                user_id.value,
                                secret_hash@,
                                now,
                                VERIFICATION_TTL_MICROS,
                            )
                        }
                    &&& mail@ == mail_to(email@, combined_text(user_id.value, secret@))
                    &&& colon_free(secret@) ==> parse_combined(mail.token@) == Some(
                        (user_id.value, secret@),
                    )
                },
                Err(e) => {
                    &&& e@.is_fault()
                    &&& final(self).verification_repo.email_tokens() == old(
                        self,
                    ).verification_repo.email_tokens()
                },
            },
    {
        let ghost digest = secret_hash@;
        let new_token = NewEmailVerificationToken {
            user_id,
            token_hash: secret_hash,
            expires_at: now.plus_micros(VERIFICATION_TTL_MICROS),
        };
        let row = self.verification_repo.create_email_verification(new_token, now)?;
        assert(self.verification_repo.email_tokens() == tokens_after_issue(
            old(self).verification_repo.email_tokens(),
            row.id.value,
            user_id.value,
            digest,
            now,
            VERIFICATION_TTL_MICROS,
        ));
        let recipient = EmailRecipient { email: String::from_str(email), name: None };
        Ok(TokenMail { recipient, token: format_combined_token(user_id, secret) })
    }

    /// Stores a password-reset token for `user_id` with the digest
    /// `secret_hash`, valid for 15 minutes from `now`, and returns the
    /// message that carries the combined token to `email`.
    pub fn issue_password_reset(
        &mut self,
        user_id: Uuid,
        email: &str,
        secret: &str,
        secret_hash: String,
        now: Timestamp,
    ) -> (r: Result<TokenMail, AppError>)
        ensures
            final(self).same_but_reset_tokens(old(self)),
            old(self).verification_repo.reliable() ==> r is Ok,
            match r {
                Ok(mail) => {
                    &&& exists|token_id: u128|
                        {
                            &&& !old(self).verification_repo.reset_tokens().contains_key(token_id)
                            &&& final(self).verification_repo.reset_tokens()
                                == #[trigger] tokens_after_issue(
                                old(self).verification_repo.reset_tokens(),
                                token_id,
                                user_id.value,
                                secret_hash@,
                                now,
                                RESET_TTL_MICROS,
                            )
                        }
                    &&& mail@ == mail_to(email@, combined_text(user_id.value, secret@))
                    &&& colon_free(secret@) ==> parse_combined(mail.token@) == Some(
                        (user_id.value, secret@),
                    )
                },
                Err(e) => {
                    &&& e@.is_fault()
                    &&& final(self).verification_repo.reset_tokens() == old(
                        self,
                    ).verification_repo.reset_tokens()
                },
            },
    {
        let ghost digest = secret_hash@;
        let new_token = NewPasswordResetToken {
            user_id,
            token_hash: secret_hash,
            expires_at: now.plus_micros(RESET_TTL_MICROS),
        };
        let row = self.verification_repo.create_password_reset(new_token, now)?;
        assert(self.verification_repo.reset_tokens() == tokens_after_issue(
            old(self).verification_repo.reset_tokens(),
            row.id.value,
            user_id.value,
            digest,
            now,
            RESET_TTL_MICROS,
        ));
        let recipient = EmailRecipient { email: String::from_str(email), name: None };
        Ok(TokenMail { recipient, token: format_combined_token(user_id, secret) })
    }

    // ------------------------------------------------------- register

    /// What a registration that succeeded has done, for the time, the
    /// secret and the identifiers that were drawn.
    pub open spec fn registered(
        &self,
        email: Seq<char>,
        password: Seq<char>,
        now: Timestamp,
        secret: Seq<char>,
        digest: Seq<char>,
        token_id: u128,
        after: &Self,
        user: UserView,
        mail: Seq<char>,
    ) -> bool {
        &&& !email_taken(self.user_repo.users(), email)
        &&& !self.user_repo.users().contains_key(user.id)
        &&& user == new_user_row(
            user.id,
            NewUserView { email, password_hash: user.password_hash },
            now,
        )
        &&& secret_matches(password, user.password_hash)
        &&& after.user_repo.users() == self.user_repo.users().insert(user.id, user)
        &&& colon_free(secret)
        &&& secret_matches(secret, digest)
        &&& !self.verification_repo.email_tokens().contains_key(token_id)
        &&& after.verification_repo.email_tokens() == tokens_after_issue(
            self.verification_repo.email_tokens(),
            token_id,
            user.id,
            digest,
            now,
            VERIFICATION_TTL_MICROS,
        )
        &&& mail == combined_text(user.id, secret)
        &&& parse_combined(mail) == Some((user.id, secret))
    }

    /// What a registration that succeeded has done, whatever it drew.
    pub open spec fn registration_succeeded(
        &self,
        email: Seq<char>,
        password: Seq<char>,
        after: &Self,
        user: UserView,
        mail: Seq<char>,
    ) -> bool {
        exists|now: Timestamp, secret: Seq<char>, digest: Seq<char>, token_id: u128|
            self.registered(email, password, now, secret, digest, token_id, after, user, mail)
    }

    /// Registers a new account: unverified and active, with the digest of
    /// the password. Stores an email-verification token and returns the
    /// user together with the verification message that is due. An address
    /// that is taken is a conflict. Where the message cannot be prepared
    /// the user may exist already: the caller offers a way to ask again.
    pub fn register(&mut self, email: String, password: String) -> (r: Result<
        (User, TokenMail),
        AppError,
    >)
        ensures
            final(self).same_sessions_and_settings(old(self)),
            final(self).verification_repo.reset_tokens() == old(
                self,
            ).verification_repo.reset_tokens(),
            email_taken(old(self).user_repo.users(), email@) ==> {
                &&& r is Err
                &&& final(self).user_repo.users() == old(self).user_repo.users()
                &&& final(self).verification_repo.email_tokens() == old(
                    self,
                ).verification_repo.email_tokens()
                &&& old(self).user_repo.reliable() ==> r->Err_0@ == AppErrorView::Conflict(
                    "Email already exists"@,
                )
            },
            match r {
                Ok((user, mail)) => {
                    &&& mail@ == mail_to(email@, mail.token@)
                    &&& old(self).registration_succeeded(
                        email@,
                        password@,
                        final(self),
                        user@,
                        mail.token@,
                    )
                },
                Err(e) => {
                    &&& final(self).verification_repo.email_tokens() == old(
                        self,
                    ).verification_repo.email_tokens()
                    &&& {
                        ||| {
                            &&& e@ == AppErrorView::Conflict("Email already exists"@)
                            &&& email_taken(old(self).user_repo.users(), email@)
                            &&& final(self).user_repo.users() == old(self).user_repo.users()
                        }
                        ||| {
                            &&& e@.is_fault()
                            &&& at_most_one_added(
                                old(self).user_repo.users(),
                                final(self).user_repo.users(),
                            )
                        }
                    }
                },
            },
    {
        match self.user_repo.find_by_email(email.as_str())? {
            Some(_) => { return Err(AppError::conflict("Email already exists")); },
            None => {},
        }
        let password_hash = PasswordService::hash_password(password.as_str())?;
        let now = Timestamp::now();
        let new_user = NewUser { email: email.clone(), password_hash };
        let user = self.user_repo.create(new_user, now)?;
        assert(at_most_one_added(old(self).user_repo.users(), self.user_repo.users()));
        let token = fresh_secret();
        let token_hash = PasswordService::hash_password(token.as_str())?;
        let ghost digest = token_hash@;
        let mail = self.issue_email_verification(
            user.id,
            email.as_str(),
            token.as_str(),
            token_hash,
            now,
        )?;
        proof {
            let token_id = choose|token_id: u128|
                {
                    &&& !old(self).verification_repo.email_tokens().contains_key(token_id)
                    &&& self.verification_repo.email_tokens() == #[trigger] tokens_after_issue(
                        old(self).verification_repo.email_tokens(),
                        token_id,
                        user.id.value,
                        digest,
                        now,
                        VERIFICATION_TTL_MICROS,
                    )
                };
            assert(old(self).registered(
                email@,
                password@,
                now,
                token@,
                digest,
                token_id,
                self,
                user@,
                mail.token@,
            ));
        }
        Ok((user, mail))
    }

    // ---------------------------------------------------- verify email

    /// What the acceptance of the email-verification token `t` has done:
    /// it is the most recent unused one of its user and passes the check,
    /// the user is now verified and the token used.
    pub open spec fn email_token_redeemed(
        &self,
        token: Seq<char>,
        now: Timestamp,
        t: TokenView,
        after: &Self,
    ) -> bool {
        match parse_combined(token) {
            Some((user_id, secret)) => {
                &&& is_latest_unused(self.verification_repo.email_tokens(), user_id, Some(t))
                &&& single_use_verdict(Some(t), secret, now) == Ok::<
                    TokenView,
                    AppErrorView,
                >(t)
                &&& after.user_repo.users() == with_verified(self.user_repo.users(), user_id)
                &&& after.verification_repo.email_tokens() == with_used(
                    self.verification_repo.email_tokens(),
                    t.id,
                )
            },
            None => false,
        }
    }

    /// What the acceptance of an email-verification token has done.
    pub open spec fn email_token_accepted(
        &self,
        token: Seq<char>,
        now: Timestamp,
        after: &Self,
    ) -> bool {
        exists|t: TokenView| self.email_token_redeemed(token, now, t, after)
    }

    /// The lookup for an email-verification token found `found`, which is
    /// refused with `e`.
    pub open spec fn email_lookup_refused(
        &self,
        token: Seq<char>,
        now: Timestamp,
        found: Option<TokenView>,
        e: AppErrorView,
    ) -> bool {
        match parse_combined(token) {
            Some((user_id, secret)) => {
                &&& is_latest_unused(self.verification_repo.email_tokens(), user_id, found)
                &&& single_use_verdict(found, secret, now) == Err::<
                    TokenView,
                    AppErrorView,
                >(e)
            },
            None => false,
        }
    }

    /// Why an email-verification token is refused with `e`.
    pub open spec fn email_token_refused(&self, token: Seq<char>, now: Timestamp, e: AppErrorView)
        -> bool {
        if parse_combined(token) is None {
            e == AppErrorView::Unauthorized("Invalid token format"@)
        } else {
            exists|found: Option<TokenView>| self.email_lookup_refused(token, now, found, e)
        }
    }

    /// Redeems an email-verification token at `now`: the user of the token
    /// is marked verified and the token used. Nothing changes where the
    /// token is refused.
    pub fn verify_email_at(&mut self, token: &str, now: Timestamp) -> (r: Result<(), AppError>)
        ensures
            final(self).same_sessions_and_settings(old(self)),
            final(self).verification_repo.reset_tokens() == old(
                self,
            ).verification_repo.reset_tokens(),
            match r {
                Ok(()) => old(self).email_token_accepted(token@, now, final(self)),
                Err(e) => {
                    ||| {
                        &&& old(self).email_token_refused(token@, now, e@)
                        &&& final(self).user_repo.users() == old(self).user_repo.users()
                        &&& final(self).verification_repo.email_tokens() == old(
                            self,
                        ).verification_repo.email_tokens()
                    }
                    ||| {
                        &&& e@.is_fault()
                        &&& !old(self).reliable()
                        &&& parse_combined(token@) is Some
                        &&& final(self).verification_repo.email_tokens() == old(
                            self,
                        ).verification_repo.email_tokens()
                        &&& {
                            ||| final(self).user_repo.users() == old(self).user_repo.users()
                            ||| final(self).user_repo.users() == with_verified(
                                old(self).user_repo.users(),
                                named_id(token@),
                            )
                        }
                    }
                },
            },
    {
        let (user_id, secret) = match parse_combined_token(token) {
            Some(parts) => parts,
            None => { return Err(AppError::unauthorized("Invalid token format")); },
        };
        let verification = match self.verification_repo.find_email_verification_by_user(user_id)? {
            Some(v) => v,
            None => {
                let e = AppError::unauthorized("Invalid or expired token");
                assert(old(self).email_lookup_refused(token@, now, None, e@));
                return Err(e);
            },
        };
        match check_single_use(
            Ghost(verification@),
            verification.used,
            verification.token_hash.as_str(),
            verification.expires_at,
            secret.as_str(),
            now,
        ) {
            Ok(()) => {},
            Err(e) => {
                assert(old(self).email_lookup_refused(token@, now, Some(verification@), e@));
                return Err(e);
            },
        }
        self.user_repo.verify_user(user_id)?;
        self.verification_repo.mark_email_verification_as_used(verification.id)?;
        assert(old(self).email_token_redeemed(token@, now, verification@, self));
        Ok(())
    }

    /// Redeems an email-verification token at the current time.
    pub fn verify_email(&mut self, token: String) -> (r: Result<(), AppError>)
        ensures
            final(self).same_sessions_and_settings(old(self)),
            final(self).verification_repo.reset_tokens() == old(
                self,
            ).verification_repo.reset_tokens(),
            match r {
                Ok(()) => exists|now: Timestamp| #[trigger]
                    old(self).email_token_accepted(token@, now, final(self)),
                Err(e) => {
                    ||| {
                        &&& exists|now: Timestamp| #[trigger]
                            old(self).email_token_refused(token@, now, e@)
                        &&& final(self).user_repo.users() == old(self).user_repo.users()
                        &&& final(self).verification_repo.email_tokens() == old(
                            self,
                        ).verification_repo.email_tokens()
                    }
                    ||| {
                        &&& e@.is_fault()
                        &&& !old(self).reliable()
                        &&& parse_combined(token@) is Some
                        &&& final(self).verification_repo.email_tokens() == old(
                            self,
                        ).verification_repo.email_tokens()
                        &&& {
                            ||| final(self).user_repo.users() == old(self).user_repo.users()
                            ||| final(self).user_repo.users() == with_verified(
                                old(self).user_repo.users(),
                                named_id(token@),
                            )
                        }
                    }
                },
            },
    {
        let now = Timestamp::now();
        self.verify_email_at(token.as_str(), now)
    }

    /// Whether a verification message may be sent again to the user that
    /// was found, and the error if not.
    pub open spec fn resend_verdict(found: Option<UserView>) -> Result<UserView, AppErrorView> {
        match found {
            None => Err(AppErrorView::NotFound("User not found"@)),
            Some(u) => if u.is_verified {
                Err(AppErrorView::Forbidden("Email already verified"@))
            } else {
                Ok(u)
            },
        }
    }

    /// What a request for a new verification message has done, for what it
    /// drew.
    pub open spec fn verification_issued(
        &self,
        email: Seq<char>,
        user: UserView,
        now: Timestamp,
        secret: Seq<char>,
        digest: Seq<char>,
        token_id: u128,
        after: &Self,
        mail: Seq<char>,
    ) -> bool {
        &&& found_by_email(self.user_repo.users(), email, Some(user))
        &&& !user.is_verified
        &&& colon_free(secret)
        &&& secret_matches(secret, digest)
        &&& !self.verification_repo.email_tokens().contains_key(token_id)
        &&& after.verification_repo.email_tokens() == tokens_after_issue(
            self.verification_repo.email_tokens(),
            token_id,
            user.id,
            digest,
            now,
            VERIFICATION_TTL_MICROS,
        )
        &&& mail == combined_text(user.id, secret)
        &&& parse_combined(mail) == Some((user.id, secret))
    }

    /// What a request for a new verification message has done, whatever it
    /// drew.
    pub open spec fn verification_requested(&self, email: Seq<char>, after: &Self, mail: Seq<char>)
        -> bool {
        exists|
            user: UserView,
            now: Timestamp,
            secret: Seq<char>,
            digest: Seq<char>,
            token_id: u128,
        |
            self.verification_issued(email, user, now, secret, digest, token_id, after, mail)
    }

    /// Every user under the address `email` is verified already.
    pub open spec fn all_verified(users: Map<u128, UserView>, email: Seq<char>) -> bool {
        forall|id: u128|
            #[trigger] users.contains_key(id) && users[id].email == email ==> users[id].is_verified
    }

    /// Issues a new email-verification token for the user with this
    /// address and returns the message that is due. An unknown address is
    /// not found; a user who is verified already is refused. Both refusals
    /// come from every store that answers, whatever is drawn.
    pub fn request_email_verification(&mut self, email: &str) -> (r: Result<TokenMail, AppError>)
        ensures
            final(self).same_but_email_tokens(old(self)),
            old(self).user_repo.reliable() && !email_taken(old(self).user_repo.users(), email@)
                ==> (r matches Err(e) && e@ == AppErrorView::NotFound("User not found"@)),
            old(self).user_repo.reliable() && email_taken(old(self).user_repo.users(), email@)
                && Self::all_verified(old(self).user_repo.users(), email@) ==> (r matches Err(e)
                && e@ == AppErrorView::Forbidden("Email already verified"@)),
            old(self).user_repo.reliable() && old(self).verification_repo.reliable() ==> (
            r matches Err(e) ==> (e@.is_fault() ==> e@ == AppErrorView::InternalError)),
            match r {
                Ok(mail) => {
                    &&& mail@ == mail_to(email@, mail.token@)
                    &&& old(self).verification_requested(email@, final(self), mail.token@)
                },
                Err(e) => {
                    &&& final(self).verification_repo.email_tokens() == old(
                        self,
                    ).verification_repo.email_tokens()
                    &&& {
                        ||| e@.is_fault()
                        ||| exists|found: Option<UserView>|
                            {
                                &&& found_by_email(old(self).user_repo.users(), email@, found)
                                &&& #[trigger] Self::resend_verdict(found) == Err::<
                                    UserView,
                                    AppErrorView,
                                >(e@)
                            }
                    }
                },
            },
    {
        let user = match self.user_repo.find_by_email(email)? {
            Some(user) => user,
            None => {
                let e = AppError::not_found("User not found");
                assert(Self::resend_verdict(None) == Err::<UserView, AppErrorView>(e@));
                return Err(e);
            },
        };
        if user.is_verified {
            let e = AppError::forbidden("Email already verified");
            assert(Self::resend_verdict(Some(user@)) == Err::<UserView, AppErrorView>(e@));
            return Err(e);
        }
        let token = fresh_secret();
        let token_hash = PasswordService::hash_password(token.as_str())?;
        let ghost digest = token_hash@;
        let now = Timestamp::now();
        let mail = self.issue_email_verification(user.id, email, token.as_str(), token_hash, now)?;
        proof {
            let token_id = choose|token_id: u128|
                {
                    &&& !old(self).verification_repo.email_tokens().contains_key(token_id)
                    &&& self.verification_repo.email_tokens() == #[trigger] tokens_after_issue(
                        old(self).verification_repo.email_tokens(),
                        token_id,
                        user.id.value,
                        digest,
                        now,
                        VERIFICATION_TTL_MICROS,
                    )
                };
            assert(old(self).verification_issued(
                email@,
                user@,
                now,
                token@,
                digest,
                token_id,
                self,
                mail.token@,
            ));
        }
        Ok(mail)
    }

    // -------------------------------------------------- password reset

    /// What a request for a password reset has done, for what it drew.
    pub open spec fn reset_issued(
        &self,
        email: Seq<char>,
        user: UserView,
        now: Timestamp,
        secret: Seq<char>,
        digest: Seq<char>,
        token_id: u128,
        after: &Self,
        mail: Seq<char>,
    ) -> bool {
        &&& found_by_email(self.user_repo.users(), email, Some(user))
        &&& colon_free(secret)
        &&& secret_matches(secret, digest)
        &&& !self.verification_repo.reset_tokens().contains_key(token_id)
        &&& after.verification_repo.reset_tokens() == tokens_after_issue(
            self.verification_repo.reset_tokens(),
            token_id,
            user.id,
            digest,
            now,
            RESET_TTL_MICROS,
        )
        &&& mail == combined_text(user.id, secret)
        &&& parse_combined(mail) == Some((user.id, secret))
    }

    /// What a request for a password reset has done, whatever it drew.
    pub open spec fn reset_requested(&self, email: Seq<char>, after: &Self, mail: Seq<char>)
        -> bool {
        exists|
            user: UserView,
            now: Timestamp,
            secret: Seq<char>,
            digest: Seq<char>,
            token_id: u128,
        |
            self.reset_issued(email, user, now, secret, digest, token_id, after, mail)
    }

    /// Issues a password-reset token for the user with this address and
    /// returns the message that is due. An unknown address is not found.
    pub fn request_password_reset(&mut self, email: &str) -> (r: Result<TokenMail, AppError>)
        ensures
            final(self).same_but_reset_tokens(old(self)),
            !email_taken(old(self).user_repo.users(), email@) && old(self).user_repo.reliable()
                ==> (r matches Err(e) && e@ == AppErrorView::NotFound("User not found"@)),
            match r {
                Ok(mail) => {
                    &&& mail@ == mail_to(email@, mail.token@)
                    &&& old(self).reset_requested(email@, final(self), mail.token@)
                },
                Err(e) => {
                    &&& final(self).verification_repo.reset_tokens() == old(
                        self,
                    ).verification_repo.reset_tokens()
                    &&& {
                        ||| e@.is_fault()
                        ||| {
                            &&& e@ == AppErrorView::NotFound("User not found"@)
                            &&& !email_taken(old(self).user_repo.users(), email@)
                        }
                    }
                },
            },
    {
        let user = match self.user_repo.find_by_email(email)? {
            Some(user) => user,
            None => { return Err(AppError::not_found("User not found")); },
        };
        let token = fresh_secret();
        let token_hash = PasswordService::hash_password(token.as_str())?;
        let ghost digest = token_hash@;
        let now = Timestamp::now();
        let mail = self.issue_password_reset(user.id, email, token.as_str(), token_hash, now)?;
        proof {
            let token_id = choose|token_id: u128|
                {
                    &&& !old(self).verification_repo.reset_tokens().contains_key(token_id)
                    &&& self.verification_repo.reset_tokens() == #[trigger] tokens_after_issue(
                        old(self).verification_repo.reset_tokens(),
                        token_id,
                        user.id.value,
                        digest,
                        now,
                        RESET_TTL_MICROS,
                    )
                };
            assert(old(self).reset_issued(
                email@,
                user@,
                now,
                token@,
                digest,
                token_id,
                self,
                mail.token@,
            ));
        }
        Ok(mail)
    }

    /// Why a password-reset token is accepted as the row `t`.
    pub open spec fn reset_token_accepted(&self, token: Seq<char>, now: Timestamp, t: TokenView)
        -> bool {
        match parse_combined(token) {
            Some((user_id, secret)) => {
                &&& is_latest_unused(self.verification_repo.reset_tokens(), user_id, Some(t))
                &&& single_use_verdict(Some(t), secret, now) == Ok::<
                    TokenView,
                    AppErrorView,
                >(t)
            },
            None => false,
        }
    }

    /// The lookup for a password-reset token found `found`, which is
    /// refused with `e`.
    pub open spec fn reset_lookup_refused(
        &self,
        token: Seq<char>,
        now: Timestamp,
        found: Option<TokenView>,
        e: AppErrorView,
    ) -> bool {
        match parse_combined(token) {
            Some((user_id, secret)) => {
                &&& is_latest_unused(self.verification_repo.reset_tokens(), user_id, found)
                &&& single_use_verdict(found, secret, now) == Err::<
                    TokenView,
                    AppErrorView,
                >(e)
            },
            None => false,
        }
    }

    /// Why a password-reset token is refused with `e`.
    pub open spec fn reset_token_refused(&self, token: Seq<char>, now: Timestamp, e: AppErrorView)
        -> bool {
        if parse_combined(token) is None {
            e == AppErrorView::Unauthorized("Invalid token format"@)
        } else {
            exists|found: Option<TokenView>| self.reset_lookup_refused(token, now, found, e)
        }
    }

    /// The first half of a password reset: reads the combined token, loads
    /// the most recent unused reset token of its user and checks it and the
    /// secret at `now`.
    pub fn authorize_reset(&self, token: &str, now: Timestamp) -> (r: Result<
        PasswordResetToken,
        AppError,
    >)
        ensures
            match r {
                Ok(reset) => self.reset_token_accepted(token@, now, reset@),
                Err(e) => {
                    ||| self.reset_token_refused(token@, now, e@)
                    ||| {
                        &&& e@.is_fault()
                        &&& !self.verification_repo.reliable()
                        &&& parse_combined(token@) is Some
                    }
                },
            },
    {
        let (user_id, secret) = match parse_combined_token(token) {
            Some(parts) => parts,
            None => { return Err(AppError::unauthorized("Invalid token format")); },
        };
        let reset = match self.verification_repo.find_password_reset_by_user(user_id)? {
            Some(t) => t,
            None => {
                let e = AppError::unauthorized("Invalid or expired token");
                assert(self.reset_lookup_refused(token@, now, None, e@));
                return Err(e);
            },
        };
        match check_single_use(
            Ghost(reset@),
            reset.used,
            reset.token_hash.as_str(),
            reset.expires_at,
            secret.as_str(),
            now,
        ) {
            Ok(()) => Ok(reset),
            Err(e) => {
                assert(self.reset_lookup_refused(token@, now, Some(reset@), e@));
                Err(e)
            },
        }
    }

    /// The second half of a password reset: stores the new digest for the
    /// user of the token and marks the token used. Sessions stay as they
    /// are.
    pub fn apply_reset(&mut self, reset: &PasswordResetToken, password_hash: &str) -> (r: Result<
        (),
        AppError,
    >)
        ensures
            final(self).same_sessions_and_settings(old(self)),
            final(self).verification_repo.email_tokens() == old(
                self,
            ).verification_repo.email_tokens(),
            old(self).reliable() ==> r is Ok,
            match r {
                Ok(()) => {
                    &&& final(self).user_repo.users() == with_password(
                        old(self).user_repo.users(),
                        reset.user_id.value,
                        password_hash@,
                    )
                    &&& final(self).verification_repo.reset_tokens() == with_used(
                        old(self).verification_repo.reset_tokens(),
                        reset.id.value,
                    )
                },
                Err(e) => {
                    &&& e@.is_fault()
                    &&& final(self).verification_repo.reset_tokens() == old(
                        self,
                    ).verification_repo.reset_tokens()
                    &&& {
                        ||| final(self).user_repo.users() == old(self).user_repo.users()
                        ||| final(self).user_repo.users() == with_password(
                            old(self).user_repo.users(),
                            reset.user_id.value,
                            password_hash@,
                        )
                    }
                },
            },
    {
        self.user_repo.update_password(reset.user_id, password_hash)?;
        self.verification_repo.mark_password_reset_as_used(reset.id)?;
        Ok(())
    }

    /// What a password reset that succeeded has done, for the time that it
    /// drew and the digest of the new password.
    pub open spec fn password_was_reset(
        &self,
        token: Seq<char>,
        new_password: Seq<char>,
        now: Timestamp,
        t: TokenView,
        digest: Seq<char>,
        after: &Self,
    ) -> bool {
        &&& self.reset_token_accepted(token, now, t)
        &&& secret_matches(new_password, digest)
        &&& after.user_repo.users() == with_password(self.user_repo.users(), t.user_id, digest)
        &&& after.verification_repo.reset_tokens() == with_used(
            self.verification_repo.reset_tokens(),
            t.id,
        )
    }

    /// What a password reset that succeeded has done, whatever it drew.
    pub open spec fn reset_succeeded(&self, token: Seq<char>, new_password: Seq<char>, after: &Self)
        -> bool {
        exists|now: Timestamp, t: TokenView, digest: Seq<char>|
            self.password_was_reset(token, new_password, now, t, digest, after)
    }

    /// At some time the password-reset token is accepted.
    pub open spec fn reset_authorized(&self, token: Seq<char>) -> bool {
        exists|now: Timestamp, t: TokenView| self.reset_token_accepted(token, now, t)
    }

    /// The digest of the new password was stored for the user of a token
    /// that was accepted.
    pub open spec fn password_replaced(
        &self,
        token: Seq<char>,
        new_password: Seq<char>,
        after: &Self,
    ) -> bool {
        exists|now: Timestamp, t: TokenView, digest: Seq<char>|
            {
                &&& #[trigger] self.reset_token_accepted(token, now, t)
                &&& secret_matches(new_password, digest)
                &&& after.user_repo.users() == #[trigger] with_password(
                    self.user_repo.users(),
                    t.user_id,
                    digest,
                )
            }
    }

    /// Redeems a password-reset token: the user's password digest is
    /// replaced by that of `new_password` and the token is marked used.
    /// Existing sessions are not revoked. A text of the wrong form is
    /// refused before any call.
    pub fn reset_password(&mut self, token: &str, new_password: &str) -> (r: Result<(), AppError>)
        ensures
            final(self).same_sessions_and_settings(old(self)),
            parse_combined(token@) is None ==> {
                &&& r matches Err(e) && e@ == AppErrorView::Unauthorized("Invalid token format"@)
                &&& final(self).user_repo.users() == old(self).user_repo.users()
            },
            final(self).verification_repo.email_tokens() == old(
                self,
            ).verification_repo.email_tokens(),
            match r {
                Ok(()) => old(self).reset_succeeded(token@, new_password@, final(self)),
                Err(e) => {
                    &&& final(self).verification_repo.reset_tokens() == old(
                        self,
                    ).verification_repo.reset_tokens()
                    &&& {
                        ||| {
                            &&& exists|now: Timestamp| #[trigger]
                                old(self).reset_token_refused(token@, now, e@)
                            &&& final(self).user_repo.users() == old(self).user_repo.users()
                        }
                        ||| {
                            &&& e@.is_fault()
                            &&& final(self).user_repo.users() == old(self).user_repo.users()
                            &&& old(self).verification_repo.reliable() ==> old(
                                self,
                            ).reset_authorized(token@)
                        }
                        ||| e@.is_fault() && old(self).password_replaced(
                            token@,
                            new_password@,
                            final(self),
                        )
                    }
                },
            },
    {
        let now = Timestamp::now();
        let reset = self.authorize_reset(token, now)?;
        assert(old(self).reset_token_accepted(token@, now, reset@));
        let password_hash = PasswordService::hash_password(new_password)?;
        match self.apply_reset(&reset, password_hash.as_str()) {
            Ok(()) => {},
            Err(e) => {
                assert(self.user_repo.users() == old(self).user_repo.users() || {
                    &&& old(self).reset_token_accepted(token@, now, reset@)
                    &&& self.user_repo.users() == with_password(
                        old(self).user_repo.users(),
                        reset@.user_id,
                        password_hash@,
                    )
                });
                return Err(e);
            },
        }
        assert(old(self).password_was_reset(
            token@,
            new_password@,
            now,
            reset@,
            password_hash@,
            self,
        ));
        Ok(())
    }
}

} // verus!
