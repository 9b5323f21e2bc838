use auth_core::email::{
    format_recipient, password_reset_link, password_reset_mail, verification_link,
    verification_mail, EmailRecipient, RenderedMail, TokenMail,
};
use auth_core::text::{chars_of, contains_chars, contains_str, fill, matches_at};

fn recipient(name: Option<&str>) -> EmailRecipient {
    EmailRecipient { email: "a@x.com".to_string(), name: name.map(|n| n.to_string()) }
}

#[test]
fn recipient_line_with_and_without_a_name() {
    assert_eq!(format_recipient(&recipient(None)), "a@x.com");
    assert_eq!(format_recipient(&recipient(Some("Ada"))), "Ada <a@x.com>");
    assert_eq!(format_recipient(&recipient(Some(""))), " <a@x.com>");
}

#[test]
fn links_carry_the_token() {
    assert_eq!(
        verification_link("http://localhost:3000", "id:secret"),
        "http://localhost:3000/auth/verify-email?token=id:secret"
    );
    assert_eq!(
        password_reset_link("https://app.example", "id:secret"),
        "https://app.example/auth/reset-password?token=id:secret"
    );
}

#[test]
fn placeholder_is_replaced_wherever_it_stands() {
    assert_eq!(fill("a {{x}} b {{x}}", "{{x}}", "1"), "a 1 b 1");
    assert_eq!(fill("{{x}}{{x}}", "{{x}}", "ab"), "abab");
    assert_eq!(fill("no marks", "{{x}}", "1"), "no marks");
    assert_eq!(fill("", "{{x}}", "1"), "");
    assert_eq!(fill("{{x}", "{{x}}", "1"), "{{x}");
    assert_eq!(fill("aaa", "aa", "b"), "ba");
    assert_eq!(fill("aaaa", "aa", "a"), "aa");
    assert_eq!(fill("grüße {{x}} ß", "{{x}}", "ö"), "grüße ö ß");
    assert_eq!(fill("abc", "", "-"), "abc");
    assert_eq!(fill("abc", "abcd", "-"), "abc");
    assert_eq!(fill("abc", "abc", ""), "");
}

#[test]
fn substring_search() {
    let hay = chars_of("Mozilla/5.0 Chrome/120");
    assert_eq!(hay.len(), 22);
    assert!(contains_str(&hay, "Chrome/"));
    assert!(contains_str(&hay, "Mozilla"));
    assert!(contains_str(&hay, "120"));
    assert!(contains_str(&hay, ""));
    assert!(!contains_str(&hay, "chrome/"));
    assert!(!contains_str(&hay, "Chrome/121"));
    assert!(!contains_str(&hay, "Mozilla/5.0 Chrome/1200"));
    assert!(contains_chars(&Vec::new(), &Vec::new()));
    assert!(!contains_chars(&Vec::new(), &vec!['a']));
    assert!(matches_at(&hay, &chars_of("Chrome"), 12));
    assert!(!matches_at(&hay, &chars_of("Chrome"), 11));
    assert_eq!(chars_of("aé€"), vec!['a', 'é', '€']);
}

#[test]
fn verification_message_is_rendered_from_its_templates() {
    let mail = TokenMail { recipient: recipient(Some("Ada")), token: "id:secret".to_string() };
    let rendered = verification_mail(
        "http://localhost:3000",
        &mail,
        "<a href=\"{{verification_link}}\">{{verification_link}}</a>",
        "Open {{verification_link}} {{reset_link}}",
    );
    let link = "http://localhost:3000/auth/verify-email?token=id:secret";
    assert_eq!(
        rendered,
        RenderedMail {
            to: "Ada <a@x.com>".to_string(),
            subject: "Verify your email".to_string(),
            html: format!("<a href=\"{}\">{}</a>", link, link),
            text: format!("Open {} {{{{reset_link}}}}", link),
        }
    );
}

#[test]
fn password_reset_message_is_rendered_from_its_templates() {
    let mail = TokenMail { recipient: recipient(None), token: "id:secret".to_string() };
    let rendered =
        password_reset_mail("https://app.example", &mail, "<p>{{reset_link}}</p>", "{{reset_link}}");
    let link = "https://app.example/auth/reset-password?token=id:secret";
    assert_eq!(
        rendered,
        RenderedMail {
            to: "a@x.com".to_string(),
            subject: "Reset your password".to_string(),
            html: format!("<p>{}</p>", link),
            text: link.to_string(),
        }
    );
}
