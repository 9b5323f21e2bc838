//! What the service hands to the mail dispatcher: the recipient, the
//! combined token, and the link that carries it.

use vstd::prelude::*;
use crate::entity::opt_text;
use crate::text::{fill, filled};

verus! {

/// Who a message goes to.
#[derive(Debug, Clone, PartialEq, Eq)]
pub struct EmailRecipient {
    pub email: String,
    pub name: Option<String>,
}

pub struct EmailRecipientView {
    pub email: Seq<char>,
    pub name: Option<Seq<char>>,
}

impl View for EmailRecipient {
    type V = EmailRecipientView;

    open spec fn view(&self) -> EmailRecipientView {
        EmailRecipientView { email: self.email@, name: opt_text(self.name) }
    }
}

/// A message that is due: the flows return it, the caller dispatches it.
#[derive(Debug, Clone, PartialEq, Eq)]
pub struct TokenMail {
    pub recipient: EmailRecipient,
    pub token: String,
}

pub struct TokenMailView {
    pub recipient: EmailRecipientView,
    pub token: Seq<char>,
}

impl View for TokenMail {
    type V = TokenMailView;

    open spec fn view(&self) -> TokenMailView {
        TokenMailView { recipient: self.recipient@, token: self.token@ }
    }
}

/// The message that carries `token` to `email`, with no display name.
pub open spec fn mail_to(email: Seq<char>, token: Seq<char>) -> TokenMailView {
    TokenMailView { recipient: EmailRecipientView { email, name: None }, token }
}

/// The address line of a recipient: the bare address, or the name followed
/// by the address in angle brackets.
pub open spec fn recipient_line(recipient: EmailRecipientView) -> Seq<char> {
    match recipient.name {
        Some(name) => name + " <"@ + recipient.email + ">"@,
        None => recipient.email,
    }
}

/// The link that a verification message carries.
pub open spec fn verification_link_text(app_url: Seq<char>, token: Seq<char>) -> Seq<char> {
    app_url + "/auth/verify-email?token="@ + token
}

/// The link that a password-reset message carries.
pub open spec fn password_reset_link_text(app_url: Seq<char>, token: Seq<char>) -> Seq<char> {
    app_url + "/auth/reset-password?token="@ + token
}

pub fn format_recipient(recipient: &EmailRecipient) -> (line: String)
    ensures
        line@ == recipient_line(recipient@),
{
    match &recipient.name {
        Some(name) => {
            let mut line = String::from_str(name.as_str());
            line.append(" <");
            line.append(recipient.email.as_str());
            line.append(">");
            line
        },
        None => String::from_str(recipient.email.as_str()),
    }
}

pub fn verification_link(app_url: &str, token: &str) -> (link: String)
    ensures
        link@ == verification_link_text(app_url@, token@),
{
    let mut link = String::from_str(app_url);
    link.append("/auth/verify-email?token=");
    link.append(token);
    link
}

pub fn password_reset_link(app_url: &str, token: &str) -> (link: String)
    ensures
        link@ == password_reset_link_text(app_url@, token@),
{
    let mut link = String::from_str(app_url);
    link.append("/auth/reset-password?token=");
    link.append(token);
    link
}

/// A message ready for dispatch.
#[derive(Debug, Clone, PartialEq, Eq)]
pub struct RenderedMail {
    pub to: String,
    pub subject: String,
    pub html: String,
    pub text: String,
}

pub struct RenderedMailView {
    pub to: Seq<char>,
    pub subject: Seq<char>,
    pub html: Seq<char>,
    pub text: Seq<char>,
}

impl View for RenderedMail {
    type V = RenderedMailView;

    open spec fn view(&self) -> RenderedMailView {
        RenderedMailView {
            to: self.to@,
            subject: self.subject@,
            html: self.html@,
            text: self.text@,
        }
    }
}

/// The verification message: the link stands wherever a template holds
/// `{{verification_link}}`.
pub open spec fn verification_mail_view(
    app_url: Seq<char>,
    mail: TokenMailView,
    html_template: Seq<char>,
    text_template: Seq<char>,
) -> RenderedMailView {
    let link = verification_link_text(app_url, mail.token);
    RenderedMailView {
        to: recipient_line(mail.recipient),
        subject: "Verify your email"@,
        html: filled(html_template, "{{verification_link}}"@, link),
        text: filled(text_template, "{{verification_link}}"@, link),
    }
}

/// The password-reset message: the link stands wherever a template holds
/// `{{reset_link}}`.
pub open spec fn password_reset_mail_view(
    app_url: Seq<char>,
    mail: TokenMailView,
    html_template: Seq<char>,
    text_template: Seq<char>,
) -> RenderedMailView {
    let link = password_reset_link_text(app_url, mail.token);
    RenderedMailView {
        to: recipient_line(mail.recipient),
        subject: "Reset your password"@,
        html: filled(html_template, "{{reset_link}}"@, link),
        text: filled(text_template, "{{reset_link}}"@, link),
    }
}

/// Renders the verification message from its two templates.
pub fn verification_mail(
    app_url: &str,
    mail: &TokenMail,
    html_template: &str,
    text_template: &str,
) -> (rendered: RenderedMail)
    ensures
        rendered@ == verification_mail_view(app_url@, mail@, html_template@, text_template@),
{
    let link = verification_link(app_url, mail.token.as_str());
    RenderedMail {
        to: format_recipient(&mail.recipient),
        subject: String::from_str("Verify your email"),
        html: fill(html_template, "{{verification_link}}", link.as_str()),
        text: fill(text_template, "{{verification_link}}", link.as_str()),
    }
}

/// Renders the password-reset message from its two templates.
pub fn password_reset_mail(
    app_url: &str,
    mail: &TokenMail,
    html_template: &str,
    text_template: &str,
) -> (rendered: RenderedMail)
    ensures
        rendered@ == password_reset_mail_view(app_url@, mail@, html_template@, text_template@),
{
    let link = password_reset_link(app_url, mail.token.as_str());
    RenderedMail {
        to: format_recipient(&mail.recipient),
        subject: String::from_str("Reset your password"),
        html: fill(html_template, "{{reset_link}}", link.as_str()),
        text: fill(text_template, "{{reset_link}}", link.as_str()),
    }
}

} // verus!
