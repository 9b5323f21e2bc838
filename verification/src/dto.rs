//! The bodies of the requests, with the rules that each must meet before a
//! flow sees it, and the shape in which sessions are listed.

use vstd::prelude::*;
use validator::{ValidateEmail, ValidateLength};
use crate::clock::Timestamp;
use crate::entity::{copy_text, opt_text, SessionView, UserSession};
use crate::errors::{FieldErrorView, ValidationErrors};
use crate::ids::Uuid;

verus! {

/// Whether the `validator` crate accepts `text` as an email address.
pub uninterp spec fn email_accepted(text: Seq<char>) -> bool;

/// Whether a text of `len` characters lies within the optional bounds.
pub open spec fn length_within(len: nat, min: Option<u64>, max: Option<u64>) -> bool {
    &&& min matches Some(m) ==> len >= m
    &&& max matches Some(m) ==> len <= m
}

/// `ValidateEmail::validate_email` on a text: the crate's verdict on the
/// address, named `email_accepted`.
#[verifier::external_body]
fn validator_email(text: &str) -> (b: bool)
    ensures
        b == email_accepted(text@),
{
    text.validate_email()
}

/// `ValidateLength::validate_length` on a text, without `equal`: whether
/// the number of characters lies within the bounds that are given.
#[verifier::external_body]
fn validator_length(text: &str, min: Option<u64>, max: Option<u64>) -> (b: bool)
    ensures
        b == length_within(text@.len(), min, max),
{
    text.validate_length(min, max, None)
}

/// The errors after the email rule has been applied to a field.
pub open spec fn with_email_rule(
    errors: Seq<FieldErrorView>,
    field: Seq<char>,
    value: Seq<char>,
) -> Seq<FieldErrorView> {
    if email_accepted(value) {
        errors
    } else {
        errors.push(
            FieldErrorView { field, code: "email"@, message: "Invalid email address"@ },
        )
    }
}

/// The errors after a length rule has been applied to a field.
pub open spec fn with_length_rule(
    errors: Seq<FieldErrorView>,
    field: Seq<char>,
    value: Seq<char>,
    min: Option<u64>,
    max: Option<u64>,
    message: Seq<char>,
) -> Seq<FieldErrorView> {
    if length_within(value.len(), min, max) {
        errors
    } else {
        errors.push(FieldErrorView { field, code: "length"@, message })
    }
}

/// What a validation returns for the errors that the rules have found.
pub open spec fn verdict_matches(r: Result<(), ValidationErrors>, errors: Seq<FieldErrorView>)
    -> bool {
    match r {
        Ok(()) => errors.len() == 0,
        Err(v) => errors.len() > 0 && v@ == errors,
    }
}

fn check_email(errors: &mut ValidationErrors, field: &str, value: &str)
    ensures
        final(errors)@ == with_email_rule(old(errors)@, field@, value@),
{
    if !validator_email(value) {
        errors.add(field, "email", "Invalid email address");
    }
}

fn check_length(
    errors: &mut ValidationErrors,
    field: &str,
    value: &str,
    min: Option<u64>,
    max: Option<u64>,
    message: &str,
)
    ensures
        final(errors)@ == with_length_rule(old(errors)@, field@, value@, min, max, message@),
{
    if !validator_length(value, min, max) {
        errors.add(field, "length", message);
    }
}

fn finish(errors: ValidationErrors) -> (r: Result<(), ValidationErrors>)
    ensures
        verdict_matches(r, errors@),
{
    if errors.is_empty() {
        Ok(())
    } else {
        Err(errors)
    }
}

/// The message of a length rule that has none of its own.
pub open spec fn length_message() -> Seq<char> {
    "Validation error: length"@
}

/// The message of the rule on passwords.
pub open spec fn password_message() -> Seq<char> {
    "Password must be at least 8 characters"@
}

#[derive(Debug, Clone, PartialEq, Eq)]
pub struct RegisterUserDto {
    pub email: String,
    pub password: String,
}

impl RegisterUserDto {
    /// The address must be an email address, the password at least eight
    /// characters long.
    pub fn validate(&self) -> (r: Result<(), ValidationErrors>)
        ensures
            verdict_matches(
                r,
                with_length_rule(
                    with_email_rule(Seq::empty(), "email"@, self.email@),
                    "password"@,
                    self.password@,
                    Some(8),
                    None,
                    password_message(),
                ),
            ),
    {
        let mut errors = ValidationErrors::new();
        check_email(&mut errors, "email", self.email.as_str());
        check_length(
            &mut errors,
            "password",
            self.password.as_str(),
            Some(8),
            None,
            "Password must be at least 8 characters",
        );
        finish(errors)
    }
}

#[derive(Debug, Clone, PartialEq, Eq)]
pub struct LoginDto {
    pub email: String,
    pub password: String,
}

impl LoginDto {
    /// The address must be an email address.
    pub fn validate(&self) -> (r: Result<(), ValidationErrors>)
        ensures
            verdict_matches(r, with_email_rule(Seq::empty(), "email"@, self.email@)),
    {
        let mut errors = ValidationErrors::new();
        check_email(&mut errors, "email", self.email.as_str());
        finish(errors)
    }
}

#[derive(Debug, Clone, PartialEq, Eq)]
pub struct VerifyEmailDto {
    pub token: String,
}

impl VerifyEmailDto {
    /// No rule: every body is accepted.
    pub fn validate(&self) -> (r: Result<(), ValidationErrors>)
        ensures
            r is Ok,
    {
        Ok(())
    }
}

#[derive(Debug, Clone, PartialEq, Eq)]
pub struct ResetPasswordDto {
    pub token: String,
    pub new_password: String,
}

impl ResetPasswordDto {
    /// The new password must be at least eight characters long.
    pub fn validate(&self) -> (r: Result<(), ValidationErrors>)
        ensures
            verdict_matches(
                r,
                with_length_rule(
                    Seq::empty(),
                    "new_password"@,
                    self.new_password@,
                    Some(8),
                    None,
                    password_message(),
                ),
            ),
    {
        let mut errors = ValidationErrors::new();
        check_length(
            &mut errors,
            "new_password",
            self.new_password.as_str(),
            Some(8),
            None,
            "Password must be at least 8 characters",
        );
        finish(errors)
    }
}

#[derive(Debug, Clone, PartialEq, Eq)]
pub struct RequestEmailVerificationDto {
    pub email: String,
}

impl RequestEmailVerificationDto {
    /// The address must be an email address.
    pub fn validate(&self) -> (r: Result<(), ValidationErrors>)
        ensures
            verdict_matches(r, with_email_rule(Seq::empty(), "email"@, self.email@)),
    {
        let mut errors = ValidationErrors::new();
        check_email(&mut errors, "email", self.email.as_str());
        finish(errors)
    }
}

#[derive(Debug, Clone, PartialEq, Eq)]
pub struct RefreshTokenDto {
    pub refresh_token: String,
}

impl RefreshTokenDto {
    /// No rule: every body is accepted.
    pub fn validate(&self) -> (r: Result<(), ValidationErrors>)
        ensures
            r is Ok,
    {
        Ok(())
    }
}

/// The body of a request for a password reset. It carries no rule.
#[derive(Debug, Clone, PartialEq, Eq)]
pub struct RequestResetDto {
    pub email: String,
}

#[derive(Debug, Clone, PartialEq, Eq)]
pub struct AssignRoleDto {
    pub role: String,
}

impl AssignRoleDto {
    /// The role must not be empty.
    pub fn validate(&self) -> (r: Result<(), ValidationErrors>)
        ensures
            verdict_matches(
                r,
                with_length_rule(
                    Seq::empty(),
                    "role"@,
                    self.role@,
                    Some(1),
                    None,
                    length_message(),
                ),
            ),
    {
        let mut errors = ValidationErrors::new();
        check_length(
            &mut errors,
            "role",
            self.role.as_str(),
            Some(1),
            None,
            "Validation error: length",
        );
        finish(errors)
    }
}

#[derive(Debug, Clone, PartialEq, Eq)]
pub struct CreatePostDto {
    pub title: String,
    pub content: String,
}

/// The errors that the rules on a post find: a title of 1 to 255
/// characters, a content that is not empty.
pub open spec fn post_errors(title: Seq<char>, content: Seq<char>) -> Seq<FieldErrorView> {
    with_length_rule(
        with_length_rule(Seq::empty(), "title"@, title, Some(1), Some(255), length_message()),
        "content"@,
        content,
        Some(1),
        None,
        length_message(),
    )
}

fn validate_post(title: &str, content: &str) -> (r: Result<(), ValidationErrors>)
    ensures
        verdict_matches(r, post_errors(title@, content@)),
{
    let mut errors = ValidationErrors::new();
    check_length(&mut errors, "title", title, Some(1), Some(255), "Validation error: length");
    check_length(&mut errors, "content", content, Some(1), None, "Validation error: length");
    finish(errors)
}

impl CreatePostDto {
    pub fn validate(&self) -> (r: Result<(), ValidationErrors>)
        ensures
            verdict_matches(r, post_errors(self.title@, self.content@)),
    {
        validate_post(self.title.as_str(), self.content.as_str())
    }
}

#[derive(Debug, Clone, PartialEq, Eq)]
pub struct UpdatePostDto {
    pub title: String,
    pub content: String,
    pub is_published: bool,
}

impl UpdatePostDto {
    pub fn validate(&self) -> (r: Result<(), ValidationErrors>)
        ensures
            verdict_matches(r, post_errors(self.title@, self.content@)),
    {
        validate_post(self.title.as_str(), self.content.as_str())
    }
}

/// Which page of a list is asked for, and how long a page is.
#[derive(Debug, Clone, Copy, PartialEq, Eq)]
pub struct PaginationDto {
    pub page: Option<i64>,
    pub per_page: Option<i64>,
}

impl PaginationDto {
    /// The page asked for: the first where none is named.
    pub fn page_or_default(&self) -> (page: i64)
        ensures
            page == match self.page {
                Some(p) => p,
                None => 1,
            },
    {
        match self.page {
            Some(p) => p,
            None => 1,
        }
    }

    /// The length of a page: ten where none is named.
    pub fn per_page_or_default(&self) -> (per_page: i64)
        ensures
            per_page == match self.per_page {
                Some(p) => p,
                None => 10,
            },
    {
        match self.per_page {
            Some(p) => p,
            None => 10,
        }
    }
}

/// A session as its owner sees it in the list of sessions.
#[derive(Debug, Clone, PartialEq, Eq)]
pub struct UserSessionDto {
    pub id: Uuid,
    pub user_agent: Option<String>,
    pub ip_address: Option<String>,
    pub device_name: Option<String>,
    pub is_revoked: bool,
    pub created_at: Timestamp,
    pub last_used_at: Timestamp,
    pub expires_at: Timestamp,
    pub is_current: bool,
}

pub struct UserSessionDtoView {
    pub id: u128,
    pub user_agent: Option<Seq<char>>,
    pub ip_address: Option<Seq<char>>,
    pub device_name: Option<Seq<char>>,
    pub is_revoked: bool,
    pub created_at: Timestamp,
    pub last_used_at: Timestamp,
    pub expires_at: Timestamp,
    pub is_current: bool,
}

impl View for UserSessionDto {
    type V = UserSessionDtoView;

    open spec fn view(&self) -> UserSessionDtoView {
        UserSessionDtoView {
            id: self.id.value,
            user_agent: opt_text(self.user_agent),
            ip_address: opt_text(self.ip_address),
            device_name: opt_text(self.device_name),
            is_revoked: self.is_revoked,
            created_at: self.created_at,
            last_used_at: self.last_used_at,
            expires_at: self.expires_at,
            is_current: self.is_current,
        }
    }
}

/// The listing of a session for a caller whose own session is `current`.
pub open spec fn listed(s: SessionView, current: u128) -> UserSessionDtoView {
    UserSessionDtoView {
        id: s.id,
        user_agent: s.user_agent,
        ip_address: s.ip_address,
        device_name: s.device_name,
        is_revoked: s.is_revoked,
        created_at: s.created_at,
        last_used_at: s.last_used_at,
        expires_at: s.expires_at,
        is_current: s.id == current,
    }
}

/// Lists sessions in the order given, marking the caller's own. The digest
/// of the refresh secret is left out.
pub fn list_sessions(sessions: &Vec<UserSession>, current: Uuid) -> (list: Vec<UserSessionDto>)
    ensures
        list@.len() == sessions@.len(),
        forall|i: int| 0 <= i < list@.len() ==> (#[trigger] list@[i])@ == listed(
            sessions@[i]@,
            current.value,
        ),
{
    let mut list: Vec<UserSessionDto> = Vec::new();
    let mut i: usize = 0;
    while i < sessions.len()
        invariant
            i <= sessions@.len(),
            list@.len() == i,
            forall|k: int| 0 <= k < i ==> (#[trigger] list@[k])@ == listed(
                sessions@[k]@,
                current.value,
            ),
        decreases sessions@.len() - i,
    {
        let s = &sessions[i];
        list.push(
            UserSessionDto {
                id: s.id,
                user_agent: copy_text(&s.user_agent),
                ip_address: copy_text(&s.ip_address),
                device_name: copy_text(&s.device_name),
                is_revoked: s.is_revoked,
                created_at: s.created_at,
                last_used_at: s.last_used_at,
                expires_at: s.expires_at,
                is_current: s.id == current,
            },
        );
        i += 1;
    }
    list
}

} // verus!
