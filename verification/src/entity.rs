//! The records that the stores hold, and their mathematical views.

use vstd::prelude::*;
use crate::clock::Timestamp;
use crate::ids::Uuid;

verus! {

/// The characters of an optional text.
pub open spec fn opt_text(text: Option<String>) -> Option<Seq<char>> {
    match text {
        Some(t) => Some(t@),
        None => None,
    }
}

/// A copy of an optional text.
pub fn copy_text(text: &Option<String>) -> (r: Option<String>)
    ensures
        opt_text(r) == opt_text(*text),
{
    match text {
        Some(t) => Some(t.clone()),
        None => None,
    }
}

/// A registered account.
#[derive(Debug, Clone, PartialEq, Eq)]
pub struct User {
    pub id: Uuid,
    pub email: String,
    pub password_hash: String,
    pub is_active: bool,
    pub is_verified: bool,
    pub created_at: Timestamp,
    pub updated_at: Timestamp,
    pub last_login_at: Option<Timestamp>,
}

pub struct UserView {
    pub id: u128,
    pub email: Seq<char>,
    pub password_hash: Seq<char>,
    pub is_active: bool,
    pub is_verified: bool,
    pub created_at: Timestamp,
    pub updated_at: Timestamp,
    pub last_login_at: Option<Timestamp>,
}

impl View for User {
    type V = UserView;

    open spec fn view(&self) -> UserView {
        UserView {
            id: self.id.value,
            email: self.email@,
            password_hash: self.password_hash@,
            is_active: self.is_active,
            is_verified: self.is_verified,
            created_at: self.created_at,
            updated_at: self.updated_at,
            last_login_at: self.last_login_at,
        }
    }
}

/// What a registration hands to the user store.
#[derive(Debug, Clone, PartialEq, Eq)]
pub struct NewUser {
    pub email: String,
    pub password_hash: String,
}

pub struct NewUserView {
    pub email: Seq<char>,
    pub password_hash: Seq<char>,
}

impl View for NewUser {
    type V = NewUserView;

    open spec fn view(&self) -> NewUserView {
        NewUserView { email: self.email@, password_hash: self.password_hash@ }
    }
}

/// One login: the lineage of its refresh secrets and where it came from.
#[derive(Debug, Clone, PartialEq, Eq)]
pub struct UserSession {
    pub id: Uuid,
    pub user_id: Uuid,
    pub refresh_token_hash: String,
    pub user_agent: Option<String>,
    pub ip_address: Option<String>,
    pub device_name: Option<String>,
    pub is_revoked: bool,
    pub expires_at: Timestamp,
    pub created_at: Timestamp,
    pub last_used_at: Timestamp,
}

pub struct SessionView {
    pub id: u128,
    pub user_id: u128,
    pub refresh_token_hash: Seq<char>,
    pub user_agent: Option<Seq<char>>,
    pub ip_address: Option<Seq<char>>,
    pub device_name: Option<Seq<char>>,
    pub is_revoked: bool,
    pub expires_at: Timestamp,
    pub created_at: Timestamp,
    pub last_used_at: Timestamp,
}

impl View for UserSession {
    type V = SessionView;

    open spec fn view(&self) -> SessionView {
        SessionView {
            id: self.id.value,
            user_id: self.user_id.value,
            refresh_token_hash: self.refresh_token_hash@,
            user_agent: opt_text(self.user_agent),
            ip_address: opt_text(self.ip_address),
            device_name: opt_text(self.device_name),
            is_revoked: self.is_revoked,
            expires_at: self.expires_at,
            created_at: self.created_at,
            last_used_at: self.last_used_at,
        }
    }
}

impl SessionView {
    /// Neither revoked nor past its expiry at `now`.
    pub open spec fn is_active(self, now: Timestamp) -> bool {
        !self.is_revoked && now.micros < self.expires_at.micros
    }
}

/// What a login hands to the session store.
#[derive(Debug, Clone, PartialEq, Eq)]
pub struct NewUserSession {
    pub user_id: Uuid,
    pub refresh_token_hash: String,
    pub user_agent: Option<String>,
    pub ip_address: Option<String>,
    pub device_name: Option<String>,
    pub expires_at: Timestamp,
}

pub struct NewSessionView {
    pub user_id: u128,
    pub refresh_token_hash: Seq<char>,
    pub user_agent: Option<Seq<char>>,
    pub ip_address: Option<Seq<char>>,
    pub device_name: Option<Seq<char>>,
    pub expires_at: Timestamp,
}

impl View for NewUserSession {
    type V = NewSessionView;

    open spec fn view(&self) -> NewSessionView {
        NewSessionView {
            user_id: self.user_id.value,
            refresh_token_hash: self.refresh_token_hash@,
            user_agent: opt_text(self.user_agent),
            ip_address: opt_text(self.ip_address),
            device_name: opt_text(self.device_name),
            expires_at: self.expires_at,
        }
    }
}

/// The view that the two kinds of single-use token share.
pub struct TokenView {
    pub id: u128,
    pub user_id: u128,
    pub token_hash: Seq<char>,
    pub expires_at: Timestamp,
    pub used: bool,
    pub created_at: Timestamp,
}

/// The view of a single-use token that is about to be stored.
pub struct NewTokenView {
    pub user_id: u128,
    pub token_hash: Seq<char>,
    pub expires_at: Timestamp,
}

/// A single-use token that proves control of an email address.
#[derive(Debug, Clone, PartialEq, Eq)]
pub struct EmailVerificationToken {
    pub id: Uuid,
    pub user_id: Uuid,
    pub token_hash: String,
    pub expires_at: Timestamp,
    pub used: bool,
    pub created_at: Timestamp,
}

impl View for EmailVerificationToken {
    type V = TokenView;

    open spec fn view(&self) -> TokenView {
        TokenView {
            id: self.id.value,
            user_id: self.user_id.value,
            token_hash: self.token_hash@,
            expires_at: self.expires_at,
            used: self.used,
            created_at: self.created_at,
        }
    }
}

#[derive(Debug, Clone, PartialEq, Eq)]
pub struct NewEmailVerificationToken {
    pub user_id: Uuid,
    pub token_hash: String,
    pub expires_at: Timestamp,
}

impl View for NewEmailVerificationToken {
    type V = NewTokenView;

    open spec fn view(&self) -> NewTokenView {
        NewTokenView {
            user_id: self.user_id.value,
            token_hash: self.token_hash@,
            expires_at: self.expires_at,
        }
    }
}

/// A single-use token that authorises one change of password.
#[derive(Debug, Clone, PartialEq, Eq)]
pub struct PasswordResetToken {
    pub id: Uuid,
    pub user_id: Uuid,
    pub token_hash: String,
    pub expires_at: Timestamp,
    pub used: bool,
    pub created_at: Timestamp,
}

impl View for PasswordResetToken {
    type V = TokenView;

    open spec fn view(&self) -> TokenView {
        TokenView {
            id: self.id.value,
            user_id: self.user_id.value,
            token_hash: self.token_hash@,
            expires_at: self.expires_at,
            used: self.used,
            created_at: self.created_at,
        }
    }
}

#[derive(Debug, Clone, PartialEq, Eq)]
pub struct NewPasswordResetToken {
    pub user_id: Uuid,
    pub token_hash: String,
    pub expires_at: Timestamp,
}

impl View for NewPasswordResetToken {
    type V = NewTokenView;

    open spec fn view(&self) -> NewTokenView {
        NewTokenView {
            user_id: self.user_id.value,
            token_hash: self.token_hash@,
            expires_at: self.expires_at,
        }
    }
}

} // verus!
