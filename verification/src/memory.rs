//! Stores that keep their rows in memory. They are reliable, and they
//! number their rows from one in the order of creation: the identifier of
//! a row is its position.

use vstd::prelude::*;
use crate::clock::Timestamp;
use crate::entity::{
    copy_text, EmailVerificationToken, NewEmailVerificationToken, NewPasswordResetToken, NewUser,
    NewUserSession, PasswordResetToken, SessionView, TokenView, User, UserSession, UserView,
};
use crate::errors::AppError;
use crate::guard::has_role;
use crate::ids::Uuid;
use crate::posts::{
    lists_newest_first, page_of, post_views, within, NewPost, Post, PostRepository, PostView,
};
use crate::repository::{
    email_taken, is_latest_unused, lists_active, session_views, with_all_revoked, with_last_login,
    with_password, with_revoked, with_rotated, with_touched, with_used, with_verified,
    SessionRepository, UserRepository, VerificationTokenRepository,
};

verus! {

/// The index of the row `id` among `len` rows, if it is one of them.
fn index_of(id: Uuid, len: usize) -> (r: Option<usize>)
    ensures
        match r {
            Some(i) => i < len && id.value == i + 1,
            None => !(1 <= id.value <= len),
        },
{
    if id.value >= 1 && id.value <= len as u128 {
        Some((id.value - 1) as usize)
    } else {
        None
    }
}

/// The identifier of the row at index `i`.
fn id_at(i: usize) -> (id: Uuid)
    ensures
        id.value == i + 1,
{
    Uuid { value: i as u128 + 1 }
}

/// The session at index `i`, seen under the identifier of its position.
pub open spec fn session_at(rows: Seq<UserSession>, i: int) -> SessionView {
    SessionView { id: (i + 1) as u128, ..rows[i]@ }
}

/// The sessions of a store in memory, by identifier.
pub open spec fn numbered_sessions(rows: Seq<UserSession>) -> Map<u128, SessionView> {
    Map::new(|id: u128| 1 <= id <= rows.len(), |id: u128| session_at(rows, id - 1))
}

/// A session store in memory.
pub struct MemorySessions {
    rows: Vec<UserSession>,
}

impl MemorySessions {
    /// An empty store.
    pub fn new() -> (store: MemorySessions)
        ensures
            store.sessions() == Map::<u128, SessionView>::empty(),
    {
        let store = MemorySessions { rows: Vec::new() };
        assert(store.sessions() =~= Map::<u128, SessionView>::empty());
        store
    }

    /// How many sessions the store holds.
    pub fn len(&self) -> (n: usize)
        ensures
            forall|id: u128| self.sessions().contains_key(id) <==> 1 <= id <= n,
    {
        self.rows.len()
    }

    /// The row at index `i`, under the identifier of its position.
    fn read(&self, i: usize) -> (row: UserSession)
        requires
            i < self.rows@.len(),
        ensures
            row@ == session_at(self.rows@, i as int),
    {
        let s = &self.rows[i];
        UserSession {
            id: id_at(i),
            user_id: s.user_id,
            refresh_token_hash: s.refresh_token_hash.clone(),
            user_agent: copy_text(&s.user_agent),
            ip_address: copy_text(&s.ip_address),
            device_name: copy_text(&s.device_name),
            is_revoked: s.is_revoked,
            expires_at: s.expires_at,
            created_at: s.created_at,
            last_used_at: s.last_used_at,
        }
    }
}

impl SessionRepository for MemorySessions {
    closed spec fn sessions(&self) -> Map<u128, SessionView> {
        numbered_sessions(self.rows@)
    }

    open spec fn reliable(&self) -> bool {
        true
    }

    fn create(&mut self, session: NewUserSession, now: Timestamp) -> (r: Result<
        UserSession,
        AppError,
    >) {
        let id = id_at(self.rows.len());
        let row = UserSession {
            id,
            user_id: session.user_id,
            refresh_token_hash: session.refresh_token_hash,
            user_agent: session.user_agent,
            ip_address: session.ip_address,
            device_name: session.device_name,
            is_revoked: false,
            expires_at: session.expires_at,
            created_at: now,
            last_used_at: now,
        };
        self.rows.push(row);
        let stored = self.read(self.rows.len() - 1);
        assert(self.sessions() =~= old(self).sessions().insert(id.value, stored@));
        Ok(stored)
    }

    fn find_by_id(&self, id: Uuid) -> (r: Result<Option<UserSession>, AppError>) {
        match index_of(id, self.rows.len()) {
            Some(i) => Ok(Some(self.read(i))),
            None => Ok(None),
        }
    }

    fn update_last_used(&mut self, id: Uuid, now: Timestamp) -> (r: Result<(), AppError>) {
        match index_of(id, self.rows.len()) {
            Some(i) => {
                self.rows[i].last_used_at = now;
                assert(self.sessions() =~= with_touched(old(self).sessions(), id.value, now));
            },
            None => {},
        }
        Ok(())
    }

    fn update_refresh_token(
        &mut self,
        id: Uuid,
        new_hash: String,
        new_expires_at: Timestamp,
        now: Timestamp,
    ) -> (r: Result<(), AppError>) {
        match index_of(id, self.rows.len()) {
            Some(i) => {
                let ghost digest = new_hash@;
                self.rows[i].refresh_token_hash = new_hash;
                self.rows[i].expires_at = new_expires_at;
                self.rows[i].last_used_at = now;
                assert(self.sessions() =~= with_rotated(
                    old(self).sessions(),
                    id.value,
                    digest,
                    new_expires_at,
                    now,
                ));
            },
            None => {},
        }
        Ok(())
    }

    fn revoke(&mut self, id: Uuid) -> (r: Result<(), AppError>) {
        match index_of(id, self.rows.len()) {
            Some(i) => {
                self.rows[i].is_revoked = true;
                assert(self.sessions() =~= with_revoked(old(self).sessions(), id.value));
            },
            None => {},
        }
        Ok(())
    }

    fn revoke_all_for_user(&mut self, user_id: Uuid) -> (r: Result<(), AppError>) {
        let n = self.rows.len();
        let mut i: usize = 0;
        while i < n
            invariant
                i <= n,
                n == self.rows@.len(),
                n == old(self).rows@.len(),
                forall|k: int|
                    0 <= k < i ==> #[trigger] self.rows@[k] == (if old(self).rows@[k].user_id
                        == user_id {
                        UserSession { is_revoked: true, ..old(self).rows@[k] }
                    } else {
                        old(self).rows@[k]
                    }),
                forall|k: int| i <= k < n ==> self.rows@[k] == old(self).rows@[k],
            decreases n - i,
        {
            if self.rows[i].user_id == user_id {
                self.rows[i].is_revoked = true;
            }
            i += 1;
        }
        proof {
            let expected = with_all_revoked(old(self).sessions(), user_id.value);
            assert forall|id: u128| 1 <= id <= n implies #[trigger] self.sessions()[id]
                == expected[id] by {
                assert(old(self).sessions().contains_key(id));
                assert(self.rows@[id - 1] == (if old(self).rows@[id - 1].user_id == user_id {
                    UserSession { is_revoked: true, ..old(self).rows@[id - 1] }
                } else {
                    old(self).rows@[id - 1]
                }));
            }
            assert(self.sessions() =~= expected);
        }
        Ok(())
    }

    fn find_active_by_user(&self, user_id: Uuid, now: Timestamp) -> (r: Result<
        Vec<UserSession>,
        AppError,
    >) {
        let mut found: Vec<UserSession> = Vec::new();
        let n = self.rows.len();
        let mut i: usize = 0;
        while i < n
            invariant
                i <= n,
                n == self.rows@.len(),
                forall|k: int|
                    0 <= k < found@.len() ==> {
                        &&& 1 <= (#[trigger] found@[k]).id.value <= i
                        &&& found@[k]@ == session_at(self.rows@, found@[k].id.value - 1)
                        &&& found@[k].user_id == user_id
                        &&& found@[k]@.is_active(now)
                    },
                forall|k: int, j: int|
                    0 <= k < j < found@.len() ==> {
                        &&& (#[trigger] found@[k]).id != (#[trigger] found@[j]).id
                        &&& found@[k].created_at.micros >= found@[j].created_at.micros
                    },
                forall|m: int|
                    0 <= m < i && (#[trigger] session_at(self.rows@, m)).user_id == user_id.value
                        && session_at(self.rows@, m).is_active(now) ==> exists|k: int|
                        0 <= k < found@.len() && (#[trigger] found@[k]).id.value == m + 1,
            decreases n - i,
        {
            let s = &self.rows[i];
            if s.user_id == user_id && !s.is_revoked && now.is_before(s.expires_at) {
                let row = self.read(i);
                let mut at: usize = 0;
                while at < found.len() && found[at].created_at.micros >= row.created_at.micros
                    invariant
                        at <= found@.len(),
                        forall|k: int|
                            0 <= k < at ==> (#[trigger] found@[k]).created_at.micros
                                >= row.created_at.micros,
                    decreases found@.len() - at,
                {
                    at += 1;
                }
                let ghost before = found@;
                found.insert(at, row);
                assert forall|m: int|
                    0 <= m < i + 1 && (#[trigger] session_at(self.rows@, m)).user_id
                        == user_id.value && session_at(self.rows@, m).is_active(
                        now,
                    ) implies exists|k: int|
                    0 <= k < found@.len() && (#[trigger] found@[k]).id.value == m + 1 by {
                    if m == i {
                        assert(found@[at as int].id.value == m + 1);
                    } else {
                        let k0 = choose|k: int|
                            0 <= k < before.len() && (#[trigger] before[k]).id.value == m + 1;
                        if k0 < at {
                            assert(found@[k0] == before[k0]);
                        } else {
                            assert(found@[k0 + 1] == before[k0]);
                        }
                    }
                }
            }
            i += 1;
        }
        proof {
            let views = session_views(found@);
            assert forall|id: u128|
                #[trigger] self.sessions().contains_key(id) && self.sessions()[id].user_id
                    == user_id.value && self.sessions()[id].is_active(now) implies exists|k: int|
                0 <= k < views.len() && #[trigger] views[k].id == id by {
                assert(session_at(self.rows@, id - 1).user_id == user_id.value);
                let k0 = choose|k: int|
                    0 <= k < found@.len() && (#[trigger] found@[k]).id.value == (id - 1) + 1;
                assert(views[k0].id == id);
            }
            assert(lists_active(self.sessions(), user_id.value, now, views));
        }
        Ok(found)
    }
}

// ---------------------------------------------------------------- users

/// A user and the roles assigned to it.
struct UserRecord {
    user: User,
    roles: Vec<String>,
}

/// The user at index `i`, seen under the identifier of its position.
spec fn user_at(rows: Seq<UserRecord>, i: int) -> UserView {
    UserView { id: (i + 1) as u128, ..rows[i].user@ }
}

/// A store of users and roles in memory. The roles that exist are fixed
/// when the store is made.
pub struct MemoryUsers {
    rows: Vec<UserRecord>,
    role_names: Vec<String>,
}

impl MemoryUsers {
    /// An empty store in which the roles `role_names` exist.
    pub fn new(role_names: Vec<String>) -> (store: MemoryUsers)
        ensures
            store.users() == Map::<u128, UserView>::empty(),
            forall|n: Seq<char>| store.known_role(n) == role_names.deep_view().contains(n),
            forall|u: u128| store.roles_of(u) == Seq::<Seq<char>>::empty(),
    {
        let store = MemoryUsers { rows: Vec::new(), role_names };
        assert(store.users() =~= Map::<u128, UserView>::empty());
        store
    }

    /// Activates or deactivates an account. An unknown identifier changes
    /// nothing.
    pub fn set_active(&mut self, id: Uuid, active: bool)
        ensures
            forall|u: u128| final(self).roles_of(u) == old(self).roles_of(u),
            forall|n: Seq<char>| final(self).known_role(n) == old(self).known_role(n),
            final(self).users() == if old(self).users().contains_key(id.value) {
                old(self).users().insert(
                    id.value,
                    UserView { is_active: active, ..old(self).users()[id.value] },
                )
            } else {
                old(self).users()
            },
    {
        match index_of(id, self.rows.len()) {
            Some(i) => {
                self.rows[i].user.is_active = active;
                assert(self.users() =~= old(self).users().insert(
                    id.value,
                    UserView { is_active: active, ..old(self).users()[id.value] },
                ));
            },
            None => {},
        }
    }

    /// The row at index `i`, under the identifier of its position.
    fn read(&self, i: usize) -> (user: User)
        requires
            i < self.rows@.len(),
        ensures
            user@ == user_at(self.rows@, i as int),
    {
        let u = &self.rows[i].user;
        User {
            id: id_at(i),
            email: u.email.clone(),
            password_hash: u.password_hash.clone(),
            is_active: u.is_active,
            is_verified: u.is_verified,
            created_at: u.created_at,
            updated_at: u.updated_at,
            last_login_at: u.last_login_at,
        }
    }

    /// The index of the first user with the address `email`.
    fn position_of(&self, email: &str) -> (r: Option<usize>)
        ensures
            match r {
                Some(i) => i < self.rows@.len() && self.rows@[i as int].user.email@ == email@,
                None => forall|k: int|
                    0 <= k < self.rows@.len() ==> (#[trigger] self.rows@[k]).user.email@ != email@,
            },
    {
        let wanted = String::from_str(email);
        let mut i: usize = 0;
        while i < self.rows.len()
            invariant
                i <= self.rows@.len(),
                wanted@ == email@,
                forall|k: int| 0 <= k < i ==> (#[trigger] self.rows@[k]).user.email@ != email@,
            decreases self.rows@.len() - i,
        {
            if self.rows[i].user.email == wanted {
                return Some(i);
            }
            i += 1;
        }
        None
    }

    proof fn lemma_taken(&self, email: Seq<char>)
        ensures
            email_taken(self.users(), email) <==> exists|k: int|
                0 <= k < self.rows@.len() && (#[trigger] self.rows@[k]).user.email@ == email,
    {
        if email_taken(self.users(), email) {
            let id = choose|id: u128| #[trigger]
                self.users().contains_key(id) && self.users()[id].email == email;
            assert(self.rows@[id - 1].user.email@ == email);
        }
        if exists|k: int|
            0 <= k < self.rows@.len() && (#[trigger] self.rows@[k]).user.email@ == email {
            let k = choose|k: int|
                0 <= k < self.rows@.len() && (#[trigger] self.rows@[k]).user.email@ == email;
            let id = (k + 1) as u128;
            assert(self.rows@.len() == self.rows.len());
            assert(id - 1 == k);
            assert(self.users().contains_key(id) && self.users()[id].email == email);
        }
    }
}

impl UserRepository for MemoryUsers {
    closed spec fn users(&self) -> Map<u128, UserView> {
        Map::new(
            |id: u128| 1 <= id <= self.rows@.len(),
            |id: u128| user_at(self.rows@, id - 1),
        )
    }

    closed spec fn roles_of(&self, user_id: u128) -> Seq<Seq<char>> {
        if 1 <= user_id <= self.rows@.len() {
            self.rows@[user_id - 1].roles.deep_view()
        } else {
            Seq::empty()
        }
    }

    closed spec fn known_role(&self, name: Seq<char>) -> bool {
        self.role_names.deep_view().contains(name)
    }

    open spec fn reliable(&self) -> bool {
        true
    }

    fn create(&mut self, new_user: NewUser, now: Timestamp) -> (r: Result<User, AppError>) {
        proof {
            self.lemma_taken(new_user.email@);
        }
        match self.position_of(new_user.email.as_str()) {
            Some(_) => {
                return Err(AppError::DatabaseError(String::from_str("duplicate email")));
            },
            None => {},
        }
        let id = id_at(self.rows.len());
        let user = User {
            id,
            email: new_user.email,
            password_hash: new_user.password_hash,
            is_active: true,
            is_verified: false,
            created_at: now,
            updated_at: now,
            last_login_at: None,
        };
        self.rows.push(UserRecord { user, roles: Vec::new() });
        let stored = self.read(self.rows.len() - 1);
        assert(self.users() =~= old(self).users().insert(id.value, stored@));
        assert forall|u: u128| self.roles_of(u) == old(self).roles_of(u) by {
            if u == id.value {
                assert(self.rows@[u - 1].roles.deep_view() =~= Seq::<Seq<char>>::empty());
            }
        }
        Ok(stored)
    }

    fn find_by_email(&self, email: &str) -> (r: Result<Option<User>, AppError>) {
        proof {
            self.lemma_taken(email@);
        }
        match self.position_of(email) {
            Some(i) => {
                let user = self.read(i);
                assert(self.users().contains_key(user.id.value));
                Ok(Some(user))
            },
            None => Ok(None),
        }
    }

    fn find_by_id(&self, id: Uuid) -> (r: Result<Option<User>, AppError>) {
        match index_of(id, self.rows.len()) {
            Some(i) => Ok(Some(self.read(i))),
            None => Ok(None),
        }
    }

    fn verify_user(&mut self, id: Uuid) -> (r: Result<(), AppError>) {
        match index_of(id, self.rows.len()) {
            Some(i) => {
                self.rows[i].user.is_verified = true;
                assert(self.users() =~= with_verified(old(self).users(), id.value));
            },
            None => {},
        }
        Ok(())
    }

    fn get_roles(&self, user_id: Uuid) -> (r: Result<Vec<String>, AppError>) {
        match index_of(user_id, self.rows.len()) {
            Some(i) => {
                let roles = &self.rows[i].roles;
                let mut names: Vec<String> = Vec::new();
                let mut k: usize = 0;
                while k < roles.len()
                    invariant
                        k <= roles@.len(),
                        names@.len() == k,
                        forall|j: int| 0 <= j < k ==> names@[j]@ == roles@[j]@,
                    decreases roles@.len() - k,
                {
                    names.push(roles[k].clone());
                    k += 1;
                }
                assert(names.deep_view() =~= roles.deep_view());
                Ok(names)
            },
            None => {
                let names: Vec<String> = Vec::new();
                assert(names.deep_view() =~= Seq::<Seq<char>>::empty());
                Ok(names)
            },
        }
    }

    fn add_role(&mut self, user_id: Uuid, role_name: &str) -> (r: Result<(), AppError>) {
        if !has_role(&self.role_names, role_name) {
            let mut message = String::from_str("Role ");
            message.append(role_name);
            message.append(" not found");
            return Err(AppError::NotFound(message));
        }
        match index_of(user_id, self.rows.len()) {
            Some(i) => {
                if has_role(&self.rows[i].roles, role_name) {
                    return Err(AppError::DatabaseError(String::from_str("duplicate role")));
                }
                self.rows[i].roles.push(String::from_str(role_name));
                assert(self.users() =~= old(self).users());
                assert(self.roles_of(user_id.value) =~= old(self).roles_of(user_id.value).push(
                    role_name@,
                ));
                Ok(())
            },
            None => Err(AppError::DatabaseError(String::from_str("unknown user"))),
        }
    }

    fn remove_role(&mut self, user_id: Uuid, role_name: &str) -> (r: Result<(), AppError>) {
        if !has_role(&self.role_names, role_name) {
            let mut message = String::from_str("Role ");
            message.append(role_name);
            message.append(" not found");
            return Err(AppError::NotFound(message));
        }
        match index_of(user_id, self.rows.len()) {
            Some(i) => {
                let wanted = String::from_str(role_name);
                let ghost before = self.rows@[i as int].roles.deep_view();
                let mut kept: Vec<String> = Vec::new();
                let mut k: usize = 0;
                while k < self.rows[i].roles.len()
                    invariant
                        i < self.rows@.len(),
                        *self == *old(self),
                        wanted@ == role_name@,
                        before == self.rows@[i as int].roles.deep_view(),
                        k <= before.len(),
                        kept.deep_view() == before.take(k as int).filter(
                            |n: Seq<char>| n != role_name@,
                        ),
                    decreases before.len() - k,
                {
                    proof {
                        let keep = |n: Seq<char>| n != role_name@;
                        assert(before.take(k + 1) =~= before.take(k as int).push(before[k as int]));
                        before.take(k as int).lemma_filter_push(before[k as int], keep);
                    }
                    if self.rows[i].roles[k] != wanted {
                        kept.push(self.rows[i].roles[k].clone());
                        assert(kept.deep_view() =~= before.take(k as int).filter(
                            |n: Seq<char>| n != role_name@,
                        ).push(before[k as int]));
                    }
                    k += 1;
                }
                assert(before.take(k as int) =~= before);
                self.rows[i].roles = kept;
                assert(self.users() =~= old(self).users());
                Ok(())
            },
            None => {
                assert(Seq::<Seq<char>>::empty().filter(|n: Seq<char>| n != role_name@)
                    =~= Seq::<Seq<char>>::empty()) by {
                    reveal(Seq::filter);
                }
                Ok(())
            },
        }
    }

    fn update_password(&mut self, user_id: Uuid, new_password_hash: &str) -> (r: Result<
        (),
        AppError,
    >) {
        match index_of(user_id, self.rows.len()) {
            Some(i) => {
                self.rows[i].user.password_hash = String::from_str(new_password_hash);
                assert(self.users() =~= with_password(
                    old(self).users(),
                    user_id.value,
                    new_password_hash@,
                ));
            },
            None => {},
        }
        Ok(())
    }

    fn update_last_login(&mut self, user_id: Uuid, now: Timestamp) -> (r: Result<(), AppError>) {
        match index_of(user_id, self.rows.len()) {
            Some(i) => {
                self.rows[i].user.last_login_at = Some(now);
                assert(self.users() =~= with_last_login(old(self).users(), user_id.value, now));
            },
            None => {},
        }
        Ok(())
    }
}

// ----------------------------------------------------- single-use tokens

/// A single-use token of either kind, without its identifier.
struct TokenRow {
    user_id: Uuid,
    token_hash: String,
    expires_at: Timestamp,
    used: bool,
    created_at: Timestamp,
}

/// The token at index `i`, seen under the identifier of its position.
spec fn token_at(rows: Seq<TokenRow>, i: int) -> TokenView {
    TokenView {
        id: (i + 1) as u128,
        user_id: rows[i].user_id.value,
        token_hash: rows[i].token_hash@,
        expires_at: rows[i].expires_at,
        used: rows[i].used,
        created_at: rows[i].created_at,
    }
}

/// The tokens of one kind, by identifier.
spec fn numbered_tokens(rows: Seq<TokenRow>) -> Map<u128, TokenView> {
    Map::new(|id: u128| 1 <= id <= rows.len(), |id: u128| token_at(rows, id - 1))
}

/// Appends a token and returns its index.
fn push_token(
    rows: &mut Vec<TokenRow>,
    user_id: Uuid,
    token_hash: String,
    expires_at: Timestamp,
    now: Timestamp,
) -> (i: usize)
    ensures
        i == old(rows)@.len(),
        final(rows)@.len() == i + 1,
        !numbered_tokens(old(rows)@).contains_key((i + 1) as u128),
        token_at(final(rows)@, i as int) == (TokenView {
            id: (i + 1) as u128,
            user_id: user_id.value,
            token_hash: token_hash@,
            expires_at,
            used: false,
            created_at: now,
        }),
        numbered_tokens(final(rows)@) == numbered_tokens(old(rows)@).insert(
            (i + 1) as u128,
            token_at(final(rows)@, i as int),
        ),
{
    let i = rows.len();
    rows.push(TokenRow { user_id, token_hash, expires_at, used: false, created_at: now });
    assert(numbered_tokens(rows@) =~= numbered_tokens(old(rows)@).insert(
        (i + 1) as u128,
        token_at(rows@, i as int),
    ));
    i
}

/// The index of the most recent unused token of `user_id`.
fn latest_unused(rows: &Vec<TokenRow>, user_id: Uuid) -> (r: Option<usize>)
    ensures
        match r {
            Some(i) => i < rows@.len() && is_latest_unused(
                numbered_tokens(rows@),
                user_id.value,
                Some(token_at(rows@, i as int)),
            ),
            None => is_latest_unused(numbered_tokens(rows@), user_id.value, None),
        },
{
    let mut best: Option<usize> = None;
    let mut i: usize = 0;
    while i < rows.len()
        invariant
            i <= rows@.len(),
            match best {
                Some(b) => {
                    &&& b < i
                    &&& rows@[b as int].user_id == user_id
                    &&& !rows@[b as int].used
                    &&& forall|k: int|
                        0 <= k < i && (#[trigger] rows@[k]).user_id == user_id && !rows@[k].used
                            ==> rows@[k].created_at.micros <= rows@[b as int].created_at.micros
                },
                None => forall|k: int|
                    0 <= k < i ==> (#[trigger] rows@[k]).user_id != user_id || rows@[k].used,
            },
        decreases rows@.len() - i,
    {
        if rows[i].user_id == user_id && !rows[i].used {
            best = match best {
                Some(b) => if rows[b].created_at.micros < rows[i].created_at.micros {
                    Some(i)
                } else {
                    Some(b)
                },
                None => Some(i),
            };
        }
        i += 1;
    }
    proof {
        let tokens = numbered_tokens(rows@);
        match best {
            Some(b) => {
                let t = token_at(rows@, b as int);
                assert(tokens.contains_key(t.id));
                assert forall|id: u128|
                    #[trigger] tokens.contains_key(id) && tokens[id].user_id == user_id.value
                        && !tokens[id].used implies tokens[id].created_at.micros
                    <= t.created_at.micros by {
                    assert(rows@[id - 1].user_id == user_id);
                }
            },
            None => {
                assert forall|id: u128| #[trigger]
                    tokens.contains_key(id) implies tokens[id].user_id != user_id.value
                    || tokens[id].used by {
                    assert(rows@[id - 1].user_id != user_id || rows@[id - 1].used);
                }
            },
        }
    }
    best
}

/// Marks the token `id` used, if there is one.
fn mark_used(rows: &mut Vec<TokenRow>, id: Uuid)
    ensures
        numbered_tokens(final(rows)@) == with_used(numbered_tokens(old(rows)@), id.value),
{
    match index_of(id, rows.len()) {
        Some(i) => {
            rows[i].used = true;
            assert(numbered_tokens(rows@) =~= with_used(numbered_tokens(old(rows)@), id.value));
        },
        None => {},
    }
}

/// A store of single-use tokens in memory.
pub struct MemoryTokens {
    email: Vec<TokenRow>,
    reset: Vec<TokenRow>,
}

impl MemoryTokens {
    /// An empty store.
    pub fn new() -> (store: MemoryTokens)
        ensures
            store.email_tokens() == Map::<u128, TokenView>::empty(),
            store.reset_tokens() == Map::<u128, TokenView>::empty(),
    {
        let store = MemoryTokens { email: Vec::new(), reset: Vec::new() };
        assert(store.email_tokens() =~= Map::<u128, TokenView>::empty());
        assert(store.reset_tokens() =~= Map::<u128, TokenView>::empty());
        store
    }
}

impl VerificationTokenRepository for MemoryTokens {
    closed spec fn email_tokens(&self) -> Map<u128, TokenView> {
        numbered_tokens(self.email@)
    }

    closed spec fn reset_tokens(&self) -> Map<u128, TokenView> {
        numbered_tokens(self.reset@)
    }

    open spec fn reliable(&self) -> bool {
        true
    }

    fn create_email_verification(&mut self, token: NewEmailVerificationToken, now: Timestamp) -> (r:
        Result<EmailVerificationToken, AppError>) {
        let digest = token.token_hash.clone();
        let i = push_token(&mut self.email, token.user_id, token.token_hash, token.expires_at, now);
        Ok(
            EmailVerificationToken {
                id: id_at(i),
                user_id: token.user_id,
                token_hash: digest,
                expires_at: token.expires_at,
                used: false,
                created_at: now,
            },
        )
    }

    fn find_email_verification_by_user(&self, user_id: Uuid) -> (r: Result<
        Option<EmailVerificationToken>,
        AppError,
    >) {
        match latest_unused(&self.email, user_id) {
            Some(i) => {
                let t = &self.email[i];
                Ok(
                    Some(
                        EmailVerificationToken {
                            id: id_at(i),
                            user_id: t.user_id,
                            token_hash: t.token_hash.clone(),
                            expires_at: t.expires_at,
                            used: t.used,
                            created_at: t.created_at,
                        },
                    ),
                )
            },
            None => Ok(None),
        }
    }

    fn create_password_reset(&mut self, token: NewPasswordResetToken, now: Timestamp) -> (r:
        Result<PasswordResetToken, AppError>) {
        let digest = token.token_hash.clone();
        let i = push_token(&mut self.reset, token.user_id, token.token_hash, token.expires_at, now);
        Ok(
            PasswordResetToken {
                id: id_at(i),
                user_id: token.user_id,
                token_hash: digest,
                expires_at: token.expires_at,
                used: false,
                created_at: now,
            },
        )
    }

    fn find_password_reset_by_user(&self, user_id: Uuid) -> (r: Result<
        Option<PasswordResetToken>,
        AppError,
    >) {
        match latest_unused(&self.reset, user_id) {
            Some(i) => {
                let t = &self.reset[i];
                Ok(
                    Some(
                        PasswordResetToken {
                            id: id_at(i),
                            user_id: t.user_id,
                            token_hash: t.token_hash.clone(),
                            expires_at: t.expires_at,
                            used: t.used,
                            created_at: t.created_at,
                        },
                    ),
                )
            },
            None => Ok(None),
        }
    }

    fn mark_email_verification_as_used(&mut self, token_id: Uuid) -> (r: Result<(), AppError>) {
        mark_used(&mut self.email, token_id);
        Ok(())
    }

    fn mark_password_reset_as_used(&mut self, token_id: Uuid) -> (r: Result<(), AppError>) {
        mark_used(&mut self.reset, token_id);
        Ok(())
    }
}

// ---------------------------------------------------------------- posts

/// The post at index `i`, seen under the identifier of its position.
spec fn post_at(rows: Seq<Option<Post>>, i: int) -> PostView {
    PostView { id: (i + 1) as u128, ..rows[i]->0@ }
}

/// The posts that are left, by identifier.
spec fn numbered_posts(rows: Seq<Option<Post>>) -> Map<u128, PostView> {
    Map::new(
        |id: u128| 1 <= id <= rows.len() && rows[id - 1] is Some,
        |id: u128| post_at(rows, id - 1),
    )
}

/// A store of posts in memory. The place of a post that was removed stays
/// empty, so that no identifier is given out twice.
pub struct MemoryPosts {
    rows: Vec<Option<Post>>,
}

impl MemoryPosts {
    /// An empty store.
    pub fn new() -> (store: MemoryPosts)
        ensures
            store.posts() == Map::<u128, PostView>::empty(),
    {
        let store = MemoryPosts { rows: Vec::new() };
        assert(store.posts() =~= Map::<u128, PostView>::empty());
        store
    }

    /// The row at index `i`, under the identifier of its position.
    fn read(&self, i: usize) -> (post: Post)
        requires
            i < self.rows@.len(),
            self.rows@[i as int] is Some,
        ensures
            post@ == post_at(self.rows@, i as int),
    {
        let p = self.rows[i].as_ref().unwrap();
        Post {
            id: id_at(i),
            title: p.title.clone(),
            content: p.content.clone(),
            is_published: p.is_published,
            author_id: p.author_id,
            created_at: p.created_at,
            updated_at: p.updated_at,
        }
    }

    /// Every post that is left, newest first.
    fn newest_first(&self) -> (all: Vec<Post>)
        ensures
            lists_newest_first(self.posts(), post_views(all@)),
    {
        let mut all: Vec<Post> = Vec::new();
        let n = self.rows.len();
        let mut i: usize = 0;
        while i < n
            invariant
                i <= n,
                n == self.rows@.len(),
                forall|k: int|
                    0 <= k < all@.len() ==> {
                        &&& 1 <= (#[trigger] all@[k]).id.value <= i
                        &&& self.rows@[all@[k].id.value - 1] is Some
                        &&& all@[k]@ == post_at(self.rows@, all@[k].id.value - 1)
                    },
                forall|k: int, j: int|
                    0 <= k < j < all@.len() ==> {
                        &&& (#[trigger] all@[k]).id != (#[trigger] all@[j]).id
                        &&& all@[k].created_at.micros >= all@[j].created_at.micros
                    },
                forall|m: int|
                    0 <= m < i && (#[trigger] self.rows@[m]) is Some ==> exists|k: int|
                        0 <= k < all@.len() && (#[trigger] all@[k]).id.value == m + 1,
            decreases n - i,
        {
            if self.rows[i].is_some() {
                let row = self.read(i);
                let mut at: usize = 0;
                while at < all.len() && all[at].created_at.micros >= row.created_at.micros
                    invariant
                        at <= all@.len(),
                        forall|k: int|
                            0 <= k < at ==> (#[trigger] all@[k]).created_at.micros
                                >= row.created_at.micros,
                    decreases all@.len() - at,
                {
                    at += 1;
                }
                let ghost before = all@;
                all.insert(at, row);
                assert forall|m: int|
                    0 <= m < i + 1 && (#[trigger] self.rows@[m]) is Some implies exists|k: int|
                    0 <= k < all@.len() && (#[trigger] all@[k]).id.value == m + 1 by {
                    if m == i {
                        assert(all@[at as int].id.value == m + 1);
                    } else {
                        let k0 = choose|k: int|
                            0 <= k < before.len() && (#[trigger] before[k]).id.value == m + 1;
                        if k0 < at {
                            assert(all@[k0] == before[k0]);
                        } else {
                            assert(all@[k0 + 1] == before[k0]);
                        }
                    }
                }
            }
            i += 1;
        }
        proof {
            let views = post_views(all@);
            assert forall|id: u128| #[trigger] self.posts().contains_key(id) implies exists|k: int|
                0 <= k < views.len() && #[trigger] views[k].id == id by {
                assert(self.rows@[id - 1] is Some);
                let k0 = choose|k: int|
                    0 <= k < all@.len() && (#[trigger] all@[k]).id.value == (id - 1) + 1;
                assert(views[k0].id == id);
            }
            assert forall|k: int| 0 <= k < views.len() implies self.posts().contains_key(
                #[trigger] views[k].id,
            ) && self.posts()[views[k].id] == views[k] by {
                assert(all@[k]@ == post_at(self.rows@, all@[k].id.value - 1));
            }
        }
        all
    }
}

/// The index `v`, held within a list of `len` rows.
fn index_within(v: i128, len: usize) -> (i: usize)
    ensures
        i == within(v as int, len as nat),
{
    if v < 0 {
        0
    } else if v > len as i128 {
        len
    } else {
        v as usize
    }
}

impl PostRepository for MemoryPosts {
    closed spec fn posts(&self) -> Map<u128, PostView> {
        numbered_posts(self.rows@)
    }

    open spec fn reliable(&self) -> bool {
        true
    }

    fn create(&mut self, new_post: NewPost, now: Timestamp) -> (r: Result<Post, AppError>) {
        let id = id_at(self.rows.len());
        let post = Post {
            id,
            title: new_post.title,
            content: new_post.content,
            is_published: false,
            author_id: new_post.author_id,
            created_at: now,
            updated_at: now,
        };
        self.rows.push(Some(post));
        let stored = self.read(self.rows.len() - 1);
        assert(self.posts() =~= old(self).posts().insert(id.value, stored@));
        Ok(stored)
    }

    fn find_by_id(&self, id: Uuid) -> (r: Result<Option<Post>, AppError>) {
        match index_of(id, self.rows.len()) {
            Some(i) => if self.rows[i].is_some() {
                Ok(Some(self.read(i)))
            } else {
                Ok(None)
            },
            None => Ok(None),
        }
    }

    fn find_all(&self, limit: i64, offset: i64) -> (r: Result<Vec<Post>, AppError>) {
        if limit < 0 || offset < 0 {
            return Err(AppError::DatabaseError(String::from_str("negative limit or offset")));
        }
        let mut all = self.newest_first();
        let ghost listing = post_views(all@);
        let from = index_within(offset as i128, all.len());
        let to = index_within(offset as i128 + limit as i128, all.len());
        all.truncate(to);
        let rows = all.split_off(from);
        assert(post_views(rows@) =~= page_of(listing, limit, offset));
        Ok(rows)
    }

    fn update(
        &mut self,
        id: Uuid,
        title: String,
        content: String,
        is_published: bool,
        now: Timestamp,
    ) -> (r: Result<Post, AppError>) {
        match index_of(id, self.rows.len()) {
            Some(i) => {
                if self.rows[i].is_none() {
                    return Err(AppError::DatabaseError(String::from_str("no such post")));
                }
                let before = self.read(i);
                let post = Post {
                    id,
                    title,
                    content,
                    is_published,
                    author_id: before.author_id,
                    created_at: before.created_at,
                    updated_at: now,
                };
                self.rows[i] = Some(post);
                let stored = self.read(i);
                assert(self.posts() =~= old(self).posts().insert(id.value, stored@));
                Ok(stored)
            },
            None => Err(AppError::DatabaseError(String::from_str("no such post"))),
        }
    }

    fn delete(&mut self, id: Uuid) -> (r: Result<(), AppError>) {
        match index_of(id, self.rows.len()) {
            Some(i) => {
                self.rows[i] = None;
            },
            None => {},
        }
        assert(self.posts() =~= old(self).posts().remove(id.value));
        Ok(())
    }
}

} // verus!
