//! Short-lived signed access tokens and random refresh secrets.

use vstd::prelude::*;
use crate::clock::Timestamp;
use crate::combined::colon_free;
use crate::config::AppConfig;
use crate::errors::{AppError, AppErrorView};
use crate::ids::{
    hyphenated, is_random_identifier_text, lemma_hyphenated_has_no_colon, uuid_parse, Uuid,
};
use crate::jwt::{jwt_decode, jwt_encode, jwt_payload, jwt_signed, RawClaims, RawClaimsView};

verus! {

/// What an access token says: who, in which session, with which roles, and
/// from when until when (seconds since the epoch).
#[derive(Debug, Clone, PartialEq, Eq)]
pub struct Claims {
    pub sub: Uuid,
    pub session_id: Uuid,
    pub exp: usize,
    pub iat: usize,
    pub roles: Vec<String>,
}

pub struct ClaimsView {
    pub sub: u128,
    pub session_id: u128,
    pub exp: usize,
    pub iat: usize,
    pub roles: Seq<Seq<char>>,
}

impl View for Claims {
    type V = ClaimsView;

    open spec fn view(&self) -> ClaimsView {
        ClaimsView {
            sub: self.sub.value,
            session_id: self.session_id.value,
            exp: self.exp,
            iat: self.iat,
            roles: self.roles.deep_view(),
        }
    }
}

/// `v` as a `usize`, held at the bounds.
pub open spec fn clamp_usize(v: int) -> usize {
    if v < 0 {
        0
    } else if v > usize::MAX {
        usize::MAX
    } else {
        v as usize
    }
}

/// The claims that a payload stands for: its two identifiers read as
/// identifiers, its two times within `usize`.
pub open spec fn claims_of(raw: RawClaimsView) -> Option<ClaimsView> {
    match (uuid_parse(raw.sub), uuid_parse(raw.session_id)) {
        (Some(sub), Some(session_id)) => if raw.exp <= usize::MAX && raw.iat <= usize::MAX {
            Some(
                ClaimsView {
                    sub,
                    session_id,
                    exp: raw.exp as usize,
                    iat: raw.iat as usize,
                    roles: raw.roles,
                },
            )
        } else {
            None
        },
        _ => None,
    }
}

/// The claims that `token` carries under `secret`, whatever the time.
pub open spec fn access_claims(token: Seq<char>, secret: Seq<char>) -> Option<ClaimsView> {
    match jwt_payload(token, secret) {
        Some(raw) => claims_of(raw),
        None => None,
    }
}

/// The claims of a token issued at `now` that lives for `minutes` minutes.
pub open spec fn issued_claims(
    user_id: u128,
    session_id: u128,
    roles: Seq<Seq<char>>,
    now: Timestamp,
    minutes: i64,
) -> ClaimsView {
    ClaimsView {
        sub: user_id,
        session_id,
        exp: clamp_usize(now.spec_unix_seconds() + minutes * 60),
        iat: clamp_usize(now.spec_unix_seconds()),
        roles,
    }
}

/// The payload that carries a set of claims: the identifiers in their
/// hyphenated text.
pub open spec fn payload_of(claims: ClaimsView) -> RawClaimsView {
    RawClaimsView {
        sub: hyphenated(claims.sub),
        session_id: hyphenated(claims.session_id),
        exp: claims.exp as u64,
        iat: claims.iat as u64,
        roles: claims.roles,
    }
}

/// What issuing an access token at `now` returns: the token that the signer
/// makes of the issued claims, or an internal error where it makes none.
pub open spec fn signed_access_token(
    user_id: u128,
    session_id: u128,
    roles: Seq<Seq<char>>,
    now: Timestamp,
    minutes: i64,
    secret: Seq<char>,
) -> Result<Seq<char>, AppErrorView> {
    match jwt_signed(payload_of(issued_claims(user_id, session_id, roles, now, minutes)), secret) {
        Some(token) => Ok(token),
        None => Err(AppErrorView::InternalError),
    }
}

/// The view of what issuing a token returned.
pub open spec fn token_view(r: Result<String, AppError>) -> Result<Seq<char>, AppErrorView> {
    match r {
        Ok(token) => Ok(token@),
        Err(e) => Err(e@),
    }
}

/// What the check of `token` under `secret` at `now` yields: the claims
/// unless the token is forged, malformed or past its expiry. Every failure
/// is the same error.
pub open spec fn verified_claims(token: Seq<char>, secret: Seq<char>, now: Timestamp) -> Result<
    ClaimsView,
    AppErrorView,
> {
    match access_claims(token, secret) {
        Some(c) => if c.exp < now.spec_unix_seconds() {
            Err(AppErrorView::Unauthorized("Invalid token"@))
        } else {
            Ok(c)
        },
        None => Err(AppErrorView::Unauthorized("Invalid token"@)),
    }
}

/// A text is the hyphenated form of some identifier.
pub open spec fn is_identifier_text(text: Seq<char>) -> bool {
    exists|v: u128| text == hyphenated(v)
}

fn seconds_to_usize(v: i128) -> (r: usize)
    ensures
        r == clamp_usize(v as int),
{
    if v < 0 {
        0
    } else if v > usize::MAX as i128 {
        usize::MAX
    } else {
        v as usize
    }
}

pub struct TokenService {
    config: AppConfig,
}

impl TokenService {
    /// The secret that tokens are signed with.
    pub closed spec fn secret(&self) -> Seq<char> {
        self.config.jwt_secret@
    }

    /// The lifetime of an access token, in minutes.
    pub closed spec fn access_minutes(&self) -> i64 {
        self.config.jwt_access_expiration_min
    }

    pub fn new(config: AppConfig) -> (service: TokenService)
        ensures
            service.secret() == config.jwt_secret@,
            service.access_minutes() == config.jwt_access_expiration_min,
    {
        TokenService { config }
    }

    /// What issuing at `now` has returned in `r`: the signer's token for
    /// the claims issued at `now`, which opens to those claims.
    pub open spec fn issued_at(
        &self,
        user_id: u128,
        session_id: u128,
        roles: Seq<Seq<char>>,
        now: Timestamp,
        r: Result<Seq<char>, AppErrorView>,
    ) -> bool {
        &&& r == signed_access_token(
            user_id,
            session_id,
            roles,
            now,
            self.access_minutes(),
            self.secret(),
        )
        &&& r matches Ok(token) ==> access_claims(token, self.secret()) == Some(
            issued_claims(user_id, session_id, roles, now, self.access_minutes()),
        )
    }

    /// Issues an access token at the current time of the system clock: for
    /// the time that was read, the result is what `generate_access_token_at`
    /// returns.
    pub fn generate_access_token(&self, user_id: Uuid, session_id: Uuid, roles: Vec<String>) -> (r:
        Result<String, AppError>)
        ensures
            exists|now: Timestamp| #[trigger]
                self.issued_at(
                    user_id.value,
                    session_id.value,
                    roles.deep_view(),
                    now,
                    token_view(r),
                ),
    {
        let now = Timestamp::now();
        let ghost names = roles.deep_view();
        let r = self.generate_access_token_at(user_id, session_id, roles, now);
        assert(self.issued_at(user_id.value, session_id.value, names, now, token_view(r)));
        r
    }

    /// Issues an access token at `now`: the claims are the two identifiers,
    /// the roles, `iat = now` and `exp = now` plus the configured lifetime,
    /// signed with the configured secret. The call succeeds exactly where
    /// the signer makes a token of these claims; where it makes none, the
    /// error is internal.
    pub fn generate_access_token_at(
        &self,
        user_id: Uuid,
        session_id: Uuid,
        roles: Vec<String>,
        now: Timestamp,
    ) -> (r: Result<String, AppError>)
        ensures
            token_view(r) == signed_access_token(
                user_id.value,
                session_id.value,
                roles.deep_view(),
                now,
                self.access_minutes(),
                self.secret(),
            ),
            r matches Ok(token) ==> access_claims(token@, self.secret()) == Some(
                issued_claims(
                    user_id.value,
                    session_id.value,
                    roles.deep_view(),
                    now,
                    self.access_minutes(),
                ),
            ),
    {
        let seconds = now.unix_seconds();
        let exp = seconds_to_usize(
            seconds as i128 + self.config.jwt_access_expiration_min as i128 * 60i128,
        );
        let iat = seconds_to_usize(seconds as i128);
        let raw = RawClaims {
            sub: user_id.to_string(),
            session_id: session_id.to_string(),
            exp: exp as u64,
            iat: iat as u64,
            roles,
        };
        assert(raw@ == payload_of(
            issued_claims(
                user_id.value,
                session_id.value,
                raw.roles.deep_view(),
                now,
                self.access_minutes(),
            ),
        ));
        match jwt_encode(&raw, self.config.jwt_secret.as_str()) {
            Ok(token) => Ok(token),
            Err(_) => Err(AppError::InternalError),
        }
    }

    /// A fresh refresh secret: random, and not itself a structured token.
    pub fn generate_refresh_token(&self) -> (secret: String)
        ensures
            is_random_identifier_text(secret@),
            is_identifier_text(secret@),
            secret@.len() == 36,
            colon_free(secret@),
    {
        let id = Uuid::new_v4();
        proof {
            lemma_hyphenated_has_no_colon(id.value);
        }
        id.to_string()
    }

    /// Checks `token` at the current time of the system clock.
    pub fn verify_access_token(&self, token: &str) -> (r: Result<Claims, AppError>)
        ensures
            access_claims(token@, self.secret()) is None ==> r is Err,
            match r {
                Ok(claims) => exists|now: Timestamp| #[trigger]
                    verified_claims(token@, self.secret(), now) == Ok::<ClaimsView, AppErrorView>(
                        claims@,
                    ),
                Err(e) => {
                    &&& e@ == AppErrorView::Unauthorized("Invalid token"@)
                    &&& exists|now: Timestamp| #[trigger]
                        verified_claims(token@, self.secret(), now) == Err::<
                            ClaimsView,
                            AppErrorView,
                        >(e@)
                },
            },
    {
        let now = Timestamp::now();
        self.verify_access_token_at(token, now)
    }

    /// Checks the signature and the shape of `token`, and its expiry against
    /// `now` with no leeway. Callers cannot tell an expired token from a
    /// forged one.
    pub fn verify_access_token_at(&self, token: &str, now: Timestamp) -> (r: Result<
        Claims,
        AppError,
    >)
        ensures
            match r {
                Ok(claims) => verified_claims(token@, self.secret(), now) == Ok::<
                    ClaimsView,
                    AppErrorView,
                >(claims@),
                Err(e) => verified_claims(token@, self.secret(), now) == Err::<
                    ClaimsView,
                    AppErrorView,
                >(e@),
            },
    {
        let raw = match jwt_decode(token, self.config.jwt_secret.as_str()) {
            Some(raw) => raw,
            None => { return Err(AppError::unauthorized("Invalid token")); },
        };
        let sub = match Uuid::parse_str(raw.sub.as_str()) {
            Some(id) => id,
            None => { return Err(AppError::unauthorized("Invalid token")); },
        };
        let session_id = match Uuid::parse_str(raw.session_id.as_str()) {
            Some(id) => id,
            None => { return Err(AppError::unauthorized("Invalid token")); },
        };
        if raw.exp > usize::MAX as u64 || raw.iat > usize::MAX as u64 {
            return Err(AppError::unauthorized("Invalid token"));
        }
        if (raw.exp as i128) < now.unix_seconds() as i128 {
            return Err(AppError::unauthorized("Invalid token"));
        }
        Ok(
            Claims {
                sub,
                session_id,
                exp: raw.exp as usize,
                iat: raw.iat as usize,
                roles: raw.roles,
            },
        )
    }
}

/// A token that was issued at `issued` is accepted, with the claims it was
/// issued with, at every `now` up to its expiry, and refused after it.
pub proof fn lemma_access_token_round_trip(
    token: Seq<char>,
    secret: Seq<char>,
    user_id: u128,
    session_id: u128,
    roles: Seq<Seq<char>>,
    issued: Timestamp,
    minutes: i64,
    now: Timestamp,
)
    requires
        access_claims(token, secret) == Some(
            issued_claims(user_id, session_id, roles, issued, minutes),
        ),
    ensures
        ({
            let claims = issued_claims(user_id, session_id, roles, issued, minutes);
            if claims.exp < now.spec_unix_seconds() {
                verified_claims(token, secret, now) == Err::<ClaimsView, AppErrorView>(
                    AppErrorView::Unauthorized("Invalid token"@),
                )
            } else {
                verified_claims(token, secret, now) == Ok::<ClaimsView, AppErrorView>(claims)
            }
        }),
        minutes >= 0 && 0 <= issued.spec_unix_seconds() + minutes * 60 <= usize::MAX
            ==> verified_claims(token, secret, issued) == Ok::<ClaimsView, AppErrorView>(
            issued_claims(user_id, session_id, roles, issued, minutes),
        ),
{
}

} // verus!
