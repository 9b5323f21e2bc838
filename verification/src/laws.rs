//! What the flows guarantee across calls: revocation is final, a refresh
//! retires the secret it was made with, a wrong secret burns the session,
//! a single-use token is accepted once, and what is unique stays unique.

use vstd::prelude::*;
use crate::clock::Timestamp;
use crate::combined::parse_combined;
use crate::entity::{SessionView, TokenView, UserView};
use crate::errors::AppErrorView;
use crate::guard::{bearer_of, guard_verdict, AuthenticatedUserView, AuthorizationHeaderView};
use crate::password::{argon2_verdict, secret_matches};
use crate::repository::{
    email_taken, found_by_email, is_latest_unused, with_all_revoked, with_last_login,
    with_password, with_revoked, with_rotated, with_touched, with_used, with_verified,
    SessionRepository, UserRepository, VerificationTokenRepository,
};
use crate::service::{
    credential_verdict, is_theft, refresh_verdict, row_of, sessions_after_check,
    sessions_after_rotation, AuthService,
};
use crate::token_service::{verified_claims, ClaimsView};
use crate::verification::{already_used, single_use_verdict};

verus! {

/// No operation of the session store makes a revoked session live again:
/// not a revocation, a rotation or a use of any session, nor the creation
/// of a new one.
pub proof fn lemma_revocation_is_final(
    sessions: Map<u128, SessionView>,
    id: u128,
    other: u128,
    user_id: u128,
    digest: Seq<char>,
    expires_at: Timestamp,
    now: Timestamp,
    created: SessionView,
)
    requires
        sessions.contains_key(id),
        sessions[id].is_revoked,
    ensures
        with_revoked(sessions, other).contains_key(id),
        with_revoked(sessions, other)[id].is_revoked,
        with_all_revoked(sessions, user_id).contains_key(id),
        with_all_revoked(sessions, user_id)[id].is_revoked,
        with_rotated(sessions, other, digest, expires_at, now).contains_key(id),
        with_rotated(sessions, other, digest, expires_at, now)[id].is_revoked,
        with_touched(sessions, other, now).contains_key(id),
        with_touched(sessions, other, now)[id].is_revoked,
        !sessions.contains_key(other) ==> sessions.insert(other, created)[id].is_revoked,
{
}

/// A revoked session refuses every refresh, whatever the secret and the
/// time, and the refusal leaves it revoked.
pub proof fn lemma_revoked_session_refuses(
    sessions: Map<u128, SessionView>,
    id: u128,
    token: Seq<char>,
    secret: Seq<char>,
    now: Timestamp,
)
    requires
        sessions.contains_key(id),
        sessions[id].is_revoked,
        parse_combined(token) == Some((id, secret)),
    ensures
        refresh_verdict(sessions, token, now) == Err::<SessionView, AppErrorView>(
            AppErrorView::Unauthorized("Session revoked"@),
        ),
        sessions_after_check(sessions, token, now) == sessions,
{
}

/// Theft detection. A live session that is presented with a secret which
/// its digest refuses is revoked by the check, and from then on it refuses
/// every refresh: also one with the secret that was correct.
pub proof fn lemma_wrong_secret_burns_session(
    sessions: Map<u128, SessionView>,
    id: u128,
    token: Seq<char>,
    wrong: Seq<char>,
    now: Timestamp,
    replay: Seq<char>,
    correct: Seq<char>,
    later: Timestamp,
)
    requires
        sessions.contains_key(id),
        !sessions[id].is_revoked,
        now.micros < sessions[id].expires_at.micros,
        parse_combined(token) == Some((id, wrong)),
        argon2_verdict(wrong, sessions[id].refresh_token_hash) == Some(false),
        parse_combined(replay) == Some((id, correct)),
    ensures
        refresh_verdict(sessions, token, now) == Err::<SessionView, AppErrorView>(
            AppErrorView::Unauthorized("Invalid refresh token"@),
        ),
        sessions_after_check(sessions, token, now) == with_revoked(sessions, id),
        sessions_after_check(sessions, token, now)[id].is_revoked,
        refresh_verdict(sessions_after_check(sessions, token, now), replay, later) == Err::<
            SessionView,
            AppErrorView,
        >(AppErrorView::Unauthorized("Session revoked"@)),
{
    assert(is_theft(row_of(sessions, id), wrong, now));
    let after = sessions_after_check(sessions, token, now);
    lemma_revoked_session_refuses(after, id, replay, correct, later);
}

/// Refresh rotation. Once a session has been rotated to the digest of a
/// new secret, a live session accepts a secret exactly if the new digest
/// accepts it. So the new secret is good until the new expiry, and the old
/// one, which the new digest refuses, is not: presenting it revokes the
/// session.
pub proof fn lemma_rotation_retires_old_secret(
    sessions: Map<u128, SessionView>,
    id: u128,
    digest: Seq<char>,
    now: Timestamp,
    days: i64,
    token: Seq<char>,
    presented: Seq<char>,
    later: Timestamp,
)
    requires
        sessions.contains_key(id),
        !sessions[id].is_revoked,
        parse_combined(token) == Some((id, presented)),
    ensures
        ({
            let after = sessions_after_rotation(sessions, id, digest, now, days);
            let live = later.micros < after[id].expires_at.micros;
            &&& after.contains_key(id)
            &&& after[id].refresh_token_hash == digest
            &&& !after[id].is_revoked
            &&& live ==> (refresh_verdict(after, token, later) is Ok <==> secret_matches(
                presented,
                digest,
            ))
            &&& live && secret_matches(presented, digest) ==> refresh_verdict(after, token, later)
                == Ok::<SessionView, AppErrorView>(after[id])
            &&& live && argon2_verdict(presented, digest) == Some(false) ==> {
                &&& refresh_verdict(after, token, later) == Err::<SessionView, AppErrorView>(
                    AppErrorView::Unauthorized("Invalid refresh token"@),
                )
                &&& sessions_after_check(after, token, later)[id].is_revoked
            }
        }),
{
    let after = sessions_after_rotation(sessions, id, digest, now, days);
    if later.micros < after[id].expires_at.micros && argon2_verdict(presented, digest) == Some(
        false,
    ) {
        assert(is_theft(row_of(after, id), presented, later));
    }
}

/// A refresh that succeeded hands out a pair that works and retires the
/// token it was made with: until the new expiry the new combined token is
/// accepted, and the old one, if the new digest refuses its secret, is
/// refused and revokes the session.
pub proof fn lemma_refresh_rotates<
    U: UserRepository,
    S: SessionRepository,
    V: VerificationTokenRepository,
>(
    before: &AuthService<U, S, V>,
    token: Seq<char>,
    now: Timestamp,
    secret: Seq<char>,
    digest: Seq<char>,
    after: &AuthService<U, S, V>,
    access: Seq<char>,
    combined: Seq<char>,
    later: Timestamp,
)
    requires
        before.refresh_granted(token, now, secret, digest, after, access, combined),
        later.micros < before.session_expiry(now).micros,
    ensures
        refresh_verdict(after.session_repo.sessions(), combined, later) is Ok,
        ({
            let (id, old_secret) = parse_combined(token)->0;
            argon2_verdict(old_secret, digest) == Some(false) ==> {
                &&& refresh_verdict(after.session_repo.sessions(), token, later) is Err
                &&& sessions_after_check(after.session_repo.sessions(), token, later)[id].is_revoked
            }
        }),
{
    let sessions = before.session_repo.sessions();
    let (id, old_secret) = parse_combined(token)->0;
    lemma_rotation_retires_old_secret(
        sessions,
        id,
        digest,
        now,
        before.config.jwt_refresh_expiration_days,
        combined,
        secret,
        later,
    );
    lemma_rotation_retires_old_secret(
        sessions,
        id,
        digest,
        now,
        before.config.jwt_refresh_expiration_days,
        token,
        old_secret,
        later,
    );
}

/// A token that has been marked used stays used, whatever is marked or
/// stored afterwards.
pub proof fn lemma_used_is_final(
    tokens: Map<u128, TokenView>,
    id: u128,
    other: u128,
    created: TokenView,
)
    requires
        tokens.contains_key(id),
        tokens[id].used,
    ensures
        with_used(tokens, other).contains_key(id),
        with_used(tokens, other)[id].used,
        !tokens.contains_key(other) ==> tokens.insert(other, created)[id].used,
{
}

/// A token that is marked used is refused, whatever the secret, and before
/// its expiry as well as after.
pub proof fn lemma_used_token_is_refused(
    token: TokenView,
    secret: Seq<char>,
    now: Timestamp,
)
    requires
        token.used,
    ensures
        single_use_verdict(Some(token), secret, now) == Err::<TokenView, AppErrorView>(
            already_used(),
        ),
{
}

/// Single use. Once the token `accepted` has been marked used, no lookup
/// finds it again, and a later attempt with the same secret is accepted
/// only where another unused token of the same user accepts that secret.
/// Where none does, every later attempt fails, before the expiry too.
pub proof fn lemma_single_use(
    tokens: Map<u128, TokenView>,
    user_id: u128,
    accepted: TokenView,
    secret: Seq<char>,
    found: Option<TokenView>,
    later: Timestamp,
)
    requires
        is_latest_unused(tokens, user_id, Some(accepted)),
        is_latest_unused(with_used(tokens, accepted.id), user_id, found),
    ensures
        found matches Some(f) ==> f.id != accepted.id && tokens.contains_key(f.id) && tokens[f.id]
            == f,
        single_use_verdict(found, secret, later) is Ok ==> exists|other: u128|
            {
                &&& #[trigger] tokens.contains_key(other)
                &&& other != accepted.id
                &&& tokens[other].user_id == user_id
                &&& !tokens[other].used
                &&& secret_matches(secret, tokens[other].token_hash)
            },
{
    let after = with_used(tokens, accepted.id);
    match found {
        Some(f) => {
            assert(after.contains_key(f.id));
            assert(f.id != accepted.id);
            assert(tokens.contains_key(f.id));
        },
        None => {},
    }
}

/// An email-verification token that was redeemed is not accepted a second
/// time, at any time, provided that no other unused token of its user
/// accepts the same secret.
pub proof fn lemma_email_token_is_single_use<
    U: UserRepository,
    S: SessionRepository,
    V: VerificationTokenRepository,
>(
    before: &AuthService<U, S, V>,
    token: Seq<char>,
    now: Timestamp,
    accepted: TokenView,
    after: &AuthService<U, S, V>,
    later: Timestamp,
    end: &AuthService<U, S, V>,
)
    requires
        before.email_token_redeemed(token, now, accepted, after),
        ({
            let (user_id, secret) = parse_combined(token)->0;
            forall|other: u128|
                #[trigger] before.verification_repo.email_tokens().contains_key(other) && other
                    != accepted.id && before.verification_repo.email_tokens()[other].user_id
                    == user_id && !before.verification_repo.email_tokens()[other].used
                    ==> !secret_matches(
                    secret,
                    before.verification_repo.email_tokens()[other].token_hash,
                )
        }),
    ensures
        !after.email_token_accepted(token, later, end),
{
    let (user_id, secret) = parse_combined(token)->0;
    let tokens = before.verification_repo.email_tokens();
    if after.email_token_accepted(token, later, end) {
        let t = choose|t: TokenView| after.email_token_redeemed(token, later, t, end);
        lemma_single_use(
            tokens,
            user_id,
            accepted,
            secret,
            Some(t),
            later,
        );
    }
}

/// A password-reset token that was redeemed is not accepted a second time,
/// at any time, provided that no other unused token of its user accepts
/// the same secret.
pub proof fn lemma_reset_token_is_single_use<
    U: UserRepository,
    S: SessionRepository,
    V: VerificationTokenRepository,
>(
    before: &AuthService<U, S, V>,
    token: Seq<char>,
    new_password: Seq<char>,
    now: Timestamp,
    accepted: TokenView,
    digest: Seq<char>,
    after: &AuthService<U, S, V>,
    later: Timestamp,
    again: TokenView,
)
    requires
        before.password_was_reset(token, new_password, now, accepted, digest, after),
        ({
            let (user_id, secret) = parse_combined(token)->0;
            forall|other: u128|
                #[trigger] before.verification_repo.reset_tokens().contains_key(other) && other
                    != accepted.id && before.verification_repo.reset_tokens()[other].user_id
                    == user_id && !before.verification_repo.reset_tokens()[other].used
                    ==> !secret_matches(
                    secret,
                    before.verification_repo.reset_tokens()[other].token_hash,
                )
        }),
    ensures
        !after.reset_token_accepted(token, later, again),
{
    let (user_id, secret) = parse_combined(token)->0;
    let tokens = before.verification_repo.reset_tokens();
    if after.reset_token_accepted(token, later, again) {
        lemma_single_use(
            tokens,
            user_id,
            accepted,
            secret,
            Some(again),
            later,
        );
    }
}

/// The address of a registration that succeeded is taken from then on, so
/// that a second registration with it is refused.
pub proof fn lemma_registered_address_is_taken<
    U: UserRepository,
    S: SessionRepository,
    V: VerificationTokenRepository,
>(
    before: &AuthService<U, S, V>,
    email: Seq<char>,
    password: Seq<char>,
    after: &AuthService<U, S, V>,
    user: UserView,
    mail: Seq<char>,
)
    requires
        before.registration_succeeded(email, password, after, user, mail),
    ensures
        email_taken(after.user_repo.users(), email),
{
    assert(after.user_repo.users().contains_key(user.id));
}

/// A user who has just registered can log in with the password of the
/// registration.
pub proof fn lemma_registered_user_can_log_in<
    U: UserRepository,
    S: SessionRepository,
    V: VerificationTokenRepository,
>(
    before: &AuthService<U, S, V>,
    email: Seq<char>,
    password: Seq<char>,
    after: &AuthService<U, S, V>,
    user: UserView,
    mail: Seq<char>,
)
    requires
        before.registration_succeeded(email, password, after, user, mail),
    ensures
        found_by_email(after.user_repo.users(), email, Some(user)),
        credential_verdict(Some(user), password) == Ok::<UserView, AppErrorView>(user),
{
    assert(after.user_repo.users().contains_key(user.id));
}

/// After a password reset the new password opens the account, if it is
/// active, and the old one does so only if the new digest accepts it too.
pub proof fn lemma_reset_replaces_the_password<
    U: UserRepository,
    S: SessionRepository,
    V: VerificationTokenRepository,
>(
    before: &AuthService<U, S, V>,
    token: Seq<char>,
    new_password: Seq<char>,
    now: Timestamp,
    accepted: TokenView,
    digest: Seq<char>,
    after: &AuthService<U, S, V>,
    old_password: Seq<char>,
)
    requires
        before.password_was_reset(token, new_password, now, accepted, digest, after),
        before.user_repo.users().contains_key(accepted.user_id),
        before.user_repo.users()[accepted.user_id].is_active,
    ensures
        ({
            let user = after.user_repo.users()[accepted.user_id];
            &&& after.user_repo.users().contains_key(accepted.user_id)
            &&& user.password_hash == digest
            &&& credential_verdict(Some(user), new_password) == Ok::<UserView, AppErrorView>(
                user,
            )
            &&& credential_verdict(Some(user), old_password) is Ok ==> secret_matches(
                old_password,
                digest,
            )
        }),
{
}

/// The addresses of the users are pairwise distinct.
pub open spec fn addresses_distinct(users: Map<u128, UserView>) -> bool {
    forall|a: u128, b: u128|
        #![trigger users[a], users[b]]
        users.contains_key(a) && users.contains_key(b) && users[a].email == users[b].email ==> a
            == b
}

/// Distinct addresses stay distinct: a user is created only under an
/// address that is not taken, and no other change touches an address.
pub proof fn lemma_addresses_stay_distinct(
    users: Map<u128, UserView>,
    id: u128,
    created: UserView,
    digest: Seq<char>,
    now: Timestamp,
)
    requires
        addresses_distinct(users),
    ensures
        !users.contains_key(id) && !email_taken(users, created.email) ==> addresses_distinct(
            users.insert(id, created),
        ),
        addresses_distinct(with_verified(users, id)),
        addresses_distinct(with_password(users, id, digest)),
        addresses_distinct(with_last_login(users, id, now)),
{
    if !users.contains_key(id) && !email_taken(users, created.email) {
        let next = users.insert(id, created);
        assert forall|a: u128, b: u128|
            #![trigger next[a], next[b]]
            next.contains_key(a) && next.contains_key(b) && next[a].email
                == next[b].email implies a == b by {
            if a == id && b != id {
                assert(users.contains_key(b) && users[b].email == created.email);
            } else if b == id && a != id {
                assert(users.contains_key(a) && users[a].email == created.email);
            } else if a != id && b != id {
                assert(users[a].email == users[b].email);
            }
        }
    }
    let verified = with_verified(users, id);
    assert forall|a: u128, b: u128|
        #![trigger verified[a], verified[b]]
        verified.contains_key(a) && verified.contains_key(b) && verified[a].email
            == verified[b].email implies a == b by {
        assert(users[a].email == users[b].email);
    }
    let changed = with_password(users, id, digest);
    assert forall|a: u128, b: u128|
        #![trigger changed[a], changed[b]]
        changed.contains_key(a) && changed.contains_key(b) && changed[a].email
            == changed[b].email implies a == b by {
        assert(users[a].email == users[b].email);
    }
    let logged = with_last_login(users, id, now);
    assert forall|a: u128, b: u128|
        #![trigger logged[a], logged[b]]
        logged.contains_key(a) && logged.contains_key(b) && logged[a].email
            == logged[b].email implies a == b by {
        assert(users[a].email == users[b].email);
    }
}

/// Logout locks out. A request whose token names a session that has been
/// revoked is refused by the guard, although the token itself is still
/// good.
pub proof fn lemma_revoked_session_is_locked_out(
    sessions: Map<u128, SessionView>,
    secret: Seq<char>,
    header: AuthorizationHeaderView,
    token: Seq<char>,
    claims: ClaimsView,
    now: Timestamp,
)
    requires
        bearer_of(header) == Ok::<Seq<char>, AppErrorView>(token),
        verified_claims(token, secret, now) == Ok::<ClaimsView, AppErrorView>(claims),
    ensures
        guard_verdict(with_revoked(sessions, claims.session_id), secret, header, now) == Err::<
            AuthenticatedUserView,
            AppErrorView,
        >(AppErrorView::Unauthorized("Session invalid or expired"@)),
        guard_verdict(
            with_all_revoked(sessions, row_of(sessions, claims.session_id)->0.user_id),
            secret,
            header,
            now,
        ) is Err,
{
    let all = with_all_revoked(sessions, row_of(sessions, claims.session_id)->0.user_id);
    if sessions.contains_key(claims.session_id) {
        assert(all.contains_key(claims.session_id));
        assert(all[claims.session_id].is_revoked);
    } else {
        assert(!all.contains_key(claims.session_id));
    }
}

/// Taking elements out of a list of distinct elements leaves them
/// distinct.
proof fn lemma_filter_keeps_distinct(s: Seq<Seq<char>>, keep: spec_fn(Seq<char>) -> bool)
    requires
        s.no_duplicates(),
    ensures
        s.filter(keep).no_duplicates(),
    decreases s.len(),
{
    reveal(Seq::filter);
    if s.len() > 0 {
        let rest = s.drop_last();
        assert forall|i: int, j: int| 0 <= i < rest.len() && 0 <= j < rest.len() && i
            != j implies rest[i] != rest[j] by {
            assert(rest[i] == s[i] && rest[j] == s[j]);
        }
        lemma_filter_keeps_distinct(rest, keep);
        if keep(s.last()) {
            let kept = rest.filter(keep);
            assert forall|i: int, j: int|
                0 <= i < kept.len() + 1 && 0 <= j < kept.len() + 1 && i != j implies kept.push(
                s.last(),
            )[i] != kept.push(s.last())[j] by {
                let low = if i < j {
                    i
                } else {
                    j
                };
                let high = if i < j {
                    j
                } else {
                    i
                };
                if high == kept.len() {
                    if kept[low] == s.last() {
                        assert(kept.contains(s.last()));
                        rest.lemma_filter_contains_rev(keep, s.last());
                        let k = choose|k: int| 0 <= k < rest.len() && rest[k] == s.last();
                        assert(s[k] == s[s.len() - 1]);
                    }
                }
            }
        }
    }
}

/// A user holds a role at most once: where the roles of a user are
/// distinct, they still are after a role that the user did not hold has
/// been assigned, and after a role has been taken away.
pub proof fn lemma_roles_stay_distinct(roles: Seq<Seq<char>>, role: Seq<char>)
    requires
        roles.no_duplicates(),
    ensures
        !roles.contains(role) ==> roles.push(role).no_duplicates(),
        roles.filter(|n: Seq<char>| n != role).no_duplicates(),
        !roles.filter(|n: Seq<char>| n != role).contains(role),
{
    let keep = |n: Seq<char>| n != role;
    if !roles.contains(role) {
        assert forall|i: int, j: int|
            0 <= i < roles.len() + 1 && 0 <= j < roles.len() + 1 && i != j implies roles.push(
            role,
        )[i] != roles.push(role)[j] by {
            if i < roles.len() && j < roles.len() {
                assert(roles[i] != roles[j]);
            } else if i < roles.len() {
                assert(roles.contains(roles[i]));
            } else {
                assert(roles.contains(roles[j]));
            }
        }
    }
    lemma_filter_keeps_distinct(roles, keep);
    if roles.filter(keep).contains(role) {
        let i = choose|i: int| 0 <= i < roles.filter(keep).len() && roles.filter(keep)[i] == role;
        roles.lemma_filter_pred(keep, i);
    }
}

} // verus!
