//! The guard in front of every protected request: from an authorization
//! header to a verified identity whose session is still alive.

use vstd::prelude::*;
use crate::clock::Timestamp;
use crate::entity::{SessionView, UserSession};
use crate::errors::{AppError, AppErrorView};
use crate::ids::Uuid;
use crate::repository::{with_touched, SessionRepository};
use crate::service::row_of;
use crate::text::chars_of;
use crate::token_service::{verified_claims, Claims, ClaimsView, TokenService};

verus! {

/// The authorization header of a request, as the transport hands it over.
#[derive(Debug, Clone, PartialEq, Eq)]
pub enum AuthorizationHeader {
    /// The request has no such header.
    Missing,
    /// The header is there and is not text.
    Unreadable,
    Text(String),
}

pub enum AuthorizationHeaderView {
    Missing,
    Unreadable,
    Text(Seq<char>),
}

impl View for AuthorizationHeader {
    type V = AuthorizationHeaderView;

    open spec fn view(&self) -> AuthorizationHeaderView {
        match self {
            AuthorizationHeader::Missing => AuthorizationHeaderView::Missing,
            AuthorizationHeader::Unreadable => AuthorizationHeaderView::Unreadable,
            AuthorizationHeader::Text(t) => AuthorizationHeaderView::Text(t@),
        }
    }
}

/// The identity that a request acts under.
#[derive(Debug, Clone, PartialEq, Eq)]
pub struct AuthenticatedUser {
    pub user_id: Uuid,
    pub session_id: Uuid,
    pub roles: Vec<String>,
}

pub struct AuthenticatedUserView {
    pub user_id: u128,
    pub session_id: u128,
    pub roles: Seq<Seq<char>>,
}

impl View for AuthenticatedUser {
    type V = AuthenticatedUserView;

    open spec fn view(&self) -> AuthenticatedUserView {
        AuthenticatedUserView {
            user_id: self.user_id.value,
            session_id: self.session_id.value,
            roles: self.roles.deep_view(),
        }
    }
}

/// The proof that a request acts under the role `admin`.
#[derive(Debug, Clone, Copy, PartialEq, Eq)]
pub struct RequireAdmin;

/// Whether `text` begins with `prefix`.
pub open spec fn starts_with(text: Seq<char>, prefix: Seq<char>) -> bool {
    prefix.len() <= text.len() && text.subrange(0, prefix.len() as int) == prefix
}

/// The bearer token of a header, or why there is none.
pub open spec fn bearer_of(header: AuthorizationHeaderView) -> Result<Seq<char>, AppErrorView> {
    match header {
        AuthorizationHeaderView::Missing => Err(
            AppErrorView::Unauthorized("Missing authorization header"@),
        ),
        AuthorizationHeaderView::Unreadable => Err(
            AppErrorView::Unauthorized("Invalid authorization header"@),
        ),
        AuthorizationHeaderView::Text(t) => if starts_with(t, "Bearer "@) {
            Ok(t.subrange(7, t.len() as int))
        } else {
            Err(AppErrorView::Unauthorized("Invalid token scheme"@))
        },
    }
}

/// The identity that a set of claims stands for.
pub open spec fn identity_of(claims: ClaimsView) -> AuthenticatedUserView {
    AuthenticatedUserView {
        user_id: claims.sub,
        session_id: claims.session_id,
        roles: claims.roles,
    }
}

/// The claims that the guard reads off a header at `now`, before any call
/// on the store: those of the bearer token, provided that it verifies.
pub open spec fn claims_of_header(
    secret: Seq<char>,
    header: AuthorizationHeaderView,
    now: Timestamp,
) -> Result<ClaimsView, AppErrorView> {
    match bearer_of(header) {
        Err(e) => Err(e),
        Ok(token) => match verified_claims(token, secret, now) {
            Err(_) => Err(AppErrorView::Unauthorized("Invalid or expired token"@)),
            Ok(claims) => Ok(claims),
        },
    }
}

/// What the guard decides once the store has answered the lookup of the
/// session: a lookup that failed is an internal error; a session that is
/// not there and one that is revoked are refused alike; else the identity
/// of the claims is let through.
pub open spec fn admission(lookup: Result<Option<SessionView>, AppErrorView>, claims: ClaimsView)
    -> Result<AuthenticatedUserView, AppErrorView> {
    match lookup {
        Err(_) => Err(AppErrorView::InternalError),
        Ok(None) => Err(AppErrorView::Unauthorized("Session invalid or expired"@)),
        Ok(Some(s)) => if s.is_revoked {
            Err(AppErrorView::Unauthorized("Session invalid or expired"@))
        } else {
            Ok(identity_of(claims))
        },
    }
}

/// What the guard decides for a header at `now`, with a store that
/// answers: the identity of the token, provided that the token verifies
/// and its session exists and is not revoked. The session's own expiry
/// plays no part: the token's does.
pub open spec fn guard_verdict(
    sessions: Map<u128, SessionView>,
    secret: Seq<char>,
    header: AuthorizationHeaderView,
    now: Timestamp,
) -> Result<AuthenticatedUserView, AppErrorView> {
    match claims_of_header(secret, header, now) {
        Err(e) => Err(e),
        Ok(claims) => admission(Ok(row_of(sessions, claims.session_id)), claims),
    }
}

/// The view of the answer to a lookup.
pub open spec fn lookup_view(lookup: Result<Option<UserSession>, AppError>) -> Result<
    Option<SessionView>,
    AppErrorView,
> {
    match lookup {
        Ok(Some(s)) => Ok(Some(s@)),
        Ok(None) => Ok(None),
        Err(e) => Err(e@),
    }
}

/// The view of what the guard returned.
pub open spec fn identity_view(r: Result<AuthenticatedUser, AppError>) -> Result<
    AuthenticatedUserView,
    AppErrorView,
> {
    match r {
        Ok(user) => Ok(user@),
        Err(e) => Err(e@),
    }
}

/// The sessions after the guard has decided: a request that is let through
/// marks its session as used at `now`.
pub open spec fn sessions_after_guard(
    sessions: Map<u128, SessionView>,
    secret: Seq<char>,
    header: AuthorizationHeaderView,
    now: Timestamp,
) -> Map<u128, SessionView> {
    match guard_verdict(sessions, secret, header, now) {
        Ok(user) => with_touched(sessions, user.session_id, now),
        Err(_) => sessions,
    }
}

/// Takes the bearer token out of an authorization header.
pub fn bearer_token(header: &AuthorizationHeader) -> (r: Result<String, AppError>)
    ensures
        match r {
            Ok(token) => bearer_of(header@) == Ok::<Seq<char>, AppErrorView>(token@),
            Err(e) => bearer_of(header@) == Err::<Seq<char>, AppErrorView>(e@),
        },
{
    match header {
        AuthorizationHeader::Missing => Err(
            AppError::unauthorized("Missing authorization header"),
        ),
        AuthorizationHeader::Unreadable => Err(
            AppError::unauthorized("Invalid authorization header"),
        ),
        AuthorizationHeader::Text(text) => {
            let chars = chars_of(text.as_str());
            let prefix = chars_of("Bearer ");
            proof {
                reveal_strlit("Bearer ");
            }
            if chars.len() < 7 {
                return Err(AppError::unauthorized("Invalid token scheme"));
            }
            let mut i: usize = 0;
            while i < 7
                invariant
                    i <= 7,
                    prefix@.len() == 7,
                    prefix@ == "Bearer "@,
                    chars@ == text@,
                    header@ == AuthorizationHeaderView::Text(text@),
                    chars@.len() >= 7,
                    forall|k: int| 0 <= k < i ==> chars@[k] == prefix@[k],
                decreases 7 - i,
            {
                if chars[i] != prefix[i] {
                    assert(text@.subrange(0, 7)[i as int] == text@[i as int]);
                    return Err(AppError::unauthorized("Invalid token scheme"));
                }
                i += 1;
            }
            assert(chars@.subrange(0, 7) =~= prefix@);
            Ok(String::from_str(text.as_str().substring_char(7, chars.len())))
        },
    }
}

/// Whether `name` is among `roles`.
pub fn has_role(roles: &Vec<String>, name: &str) -> (b: bool)
    ensures
        b == roles.deep_view().contains(name@),
{
    let wanted = String::from_str(name);
    let mut i: usize = 0;
    while i < roles.len()
        invariant
            i <= roles.len(),
            wanted@ == name@,
            forall|k: int| 0 <= k < i ==> roles.deep_view()[k] != name@,
        decreases roles.len() - i,
    {
        assert(roles.deep_view()[i as int] == roles[i as int]@);
        if roles[i] == wanted {
            return true;
        }
        i += 1;
    }
    false
}

/// Reads the claims off a header at `now`: takes the bearer token and
/// verifies it. No store is asked.
pub fn read_claims(tokens: &TokenService, header: &AuthorizationHeader, now: Timestamp) -> (r:
    Result<Claims, AppError>)
    ensures
        match r {
            Ok(claims) => claims_of_header(tokens.secret(), header@, now) == Ok::<
                ClaimsView,
                AppErrorView,
            >(claims@),
            Err(e) => claims_of_header(tokens.secret(), header@, now) == Err::<
                ClaimsView,
                AppErrorView,
            >(e@),
        },
{
    let token = bearer_token(header)?;
    match tokens.verify_access_token_at(token.as_str(), now) {
        Ok(claims) => Ok(claims),
        Err(_) => Err(AppError::unauthorized("Invalid or expired token")),
    }
}

/// Decides on a request once the store has answered the lookup of its
/// session, and marks the session of a request that is let through as used
/// at `now`. The result is that of `admission`, whatever the store returns
/// for the mark: a failure to mark does not fail the request.
pub fn let_through<S: SessionRepository>(
    sessions: &mut S,
    lookup: Result<Option<UserSession>, AppError>,
    claims: Claims,
    now: Timestamp,
) -> (r: Result<AuthenticatedUser, AppError>)
    ensures
        final(sessions).reliable() == old(sessions).reliable(),
        identity_view(r) == admission(lookup_view(lookup), claims@),
        r is Err ==> final(sessions).sessions() == old(sessions).sessions(),
        r is Ok ==> {
            ||| final(sessions).sessions() == old(sessions).sessions()
            ||| final(sessions).sessions() == with_touched(
                old(sessions).sessions(),
                claims.session_id.value,
                now,
            )
        },
        r is Ok && old(sessions).reliable() ==> final(sessions).sessions() == with_touched(
            old(sessions).sessions(),
            claims.session_id.value,
            now,
        ),
{
    let found = match lookup {
        Ok(found) => found,
        Err(_) => { return Err(AppError::InternalError); },
    };
    match found {
        Some(s) => {
            if s.is_revoked {
                return Err(AppError::unauthorized("Session invalid or expired"));
            }
            let _ = sessions.update_last_used(claims.session_id, now);
            Ok(
                AuthenticatedUser {
                    user_id: claims.sub,
                    session_id: claims.session_id,
                    roles: claims.roles,
                },
            )
        },
        None => Err(AppError::unauthorized("Session invalid or expired")),
    }
}

/// Lets a request through at `now`: takes the bearer token from the
/// header, verifies it, and loads its session, which must exist and not be
/// revoked. A header or token that is refused is refused with its own
/// error before the store is asked. A request that is let through marks
/// the session as used; a failure to do so does not fail the request.
pub fn authenticate_at<S: SessionRepository>(
    sessions: &mut S,
    tokens: &TokenService,
    header: &AuthorizationHeader,
    now: Timestamp,
) -> (r: Result<AuthenticatedUser, AppError>)
    ensures
        final(sessions).reliable() == old(sessions).reliable(),
        match claims_of_header(tokens.secret(), header@, now) {
            Err(refusal) => {
                &&& identity_view(r) == Err::<AuthenticatedUserView, AppErrorView>(refusal)
                &&& final(sessions).sessions() == old(sessions).sessions()
            },
            Ok(claims) => {
                ||| identity_view(r) == admission(
                    Ok(row_of(old(sessions).sessions(), claims.session_id)),
                    claims,
                )
                ||| {
                    &&& !old(sessions).reliable()
                    &&& identity_view(r) == admission(Err(AppErrorView::InternalError), claims)
                }
            },
        },
        match r {
            Ok(user) => {
                &&& guard_verdict(old(sessions).sessions(), tokens.secret(), header@, now) == Ok::<
                    AuthenticatedUserView,
                    AppErrorView,
                >(user@)
                &&& {
                    ||| final(sessions).sessions() == old(sessions).sessions()
                    ||| final(sessions).sessions() == with_touched(
                        old(sessions).sessions(),
                        user.session_id.value,
                        now,
                    )
                }
            },
            Err(e) => {
                &&& final(sessions).sessions() == old(sessions).sessions()
                &&& {
                    ||| guard_verdict(old(sessions).sessions(), tokens.secret(), header@, now)
                        == Err::<AuthenticatedUserView, AppErrorView>(e@)
                    ||| e@ == AppErrorView::InternalError && !old(sessions).reliable()
                }
            },
        },
        old(sessions).reliable() ==> final(sessions).sessions() == sessions_after_guard(
            old(sessions).sessions(),
            tokens.secret(),
            header@,
            now,
        ),
{
    let claims = read_claims(tokens, header, now)?;
    let lookup = sessions.find_by_id(claims.session_id);
    let_through(sessions, lookup, claims, now)
}

/// Lets a request through at the current time of the system clock. A
/// header without a bearer token is refused with its own error, whatever
/// the time and the store.
pub fn authenticate<S: SessionRepository>(
    sessions: &mut S,
    tokens: &TokenService,
    header: &AuthorizationHeader,
) -> (r: Result<AuthenticatedUser, AppError>)
    ensures
        final(sessions).reliable() == old(sessions).reliable(),
        bearer_of(header@) matches Err(refusal) ==> {
            &&& identity_view(r) == Err::<AuthenticatedUserView, AppErrorView>(refusal)
            &&& final(sessions).sessions() == old(sessions).sessions()
        },
        match r {
            Ok(user) => exists|now: Timestamp|
                {
                    &&& #[trigger] guard_verdict(
                        old(sessions).sessions(),
                        tokens.secret(),
                        header@,
                        now,
                    ) == Ok::<AuthenticatedUserView, AppErrorView>(user@)
                    &&& {
                        ||| final(sessions).sessions() == old(sessions).sessions()
                        ||| final(sessions).sessions() == with_touched(
                            old(sessions).sessions(),
                            user.session_id.value,
                            now,
                        )
                    }
                },
            Err(e) => {
                &&& final(sessions).sessions() == old(sessions).sessions()
                &&& {
                    ||| exists|now: Timestamp| #[trigger]
                        guard_verdict(old(sessions).sessions(), tokens.secret(), header@, now)
                            == Err::<AuthenticatedUserView, AppErrorView>(e@)
                    ||| e@ == AppErrorView::InternalError && !old(sessions).reliable()
                }
            },
        },
{
    let now = Timestamp::now();
    authenticate_at(sessions, tokens, header, now)
}

/// The second guard, on top of the first: the identity must hold the role
/// `admin`.
pub fn require_admin(user: &AuthenticatedUser) -> (r: Result<RequireAdmin, AppError>)
    ensures
        match r {
            Ok(_) => user@.roles.contains("admin"@),
            Err(e) => !user@.roles.contains("admin"@) && e@ == AppErrorView::Forbidden(
                "Admin role required"@,
            ),
        },
{
    if has_role(&user.roles, "admin") {
        Ok(RequireAdmin)
    } else {
        Err(AppError::forbidden("Admin role required"))
    }
}

} // verus!
