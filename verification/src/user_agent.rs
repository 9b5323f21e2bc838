//! Device labels derived from a raw user-agent string.
//!
//! Browsers embed each other's identifiers (an Edge user agent also names
//! Chrome, an Android one also names Linux), so the rules are ordered: the
//! first rule one of whose markers occurs in the text decides.

use vstd::prelude::*;
use crate::text::{chars_of, contains_str, contains_text};

verus! {

/// The browser or client that a user-agent text names, by the ordered rules.
pub open spec fn browser_label(ua: Seq<char>) -> Option<Seq<char>> {
    if contains_text(ua, "PostmanRuntime"@) {
        Some("Postman"@)
    } else if contains_text(ua, "Insomnia"@) {
        Some("Insomnia"@)
    } else if contains_text(ua, "curl"@) {
        Some("curl"@)
    } else if contains_text(ua, "Thunder Client"@) {
        Some("Thunder Client"@)
    } else if contains_text(ua, "Edg/"@) || contains_text(ua, "Edge/"@) {
        Some("Edge"@)
    } else if contains_text(ua, "OPR/"@) || contains_text(ua, "Opera"@) {
        Some("Opera"@)
    } else if contains_text(ua, "Brave"@) {
        Some("Brave"@)
    } else if contains_text(ua, "Vivaldi"@) {
        Some("Vivaldi"@)
    } else if contains_text(ua, "SamsungBrowser"@) {
        Some("Samsung Internet"@)
    } else if contains_text(ua, "Chrome/"@) || contains_text(ua, "CriOS/"@) {
        Some("Chrome"@)
    } else if contains_text(ua, "Safari/"@) {
        Some("Safari"@)
    } else if contains_text(ua, "Firefox/"@) || contains_text(ua, "FxiOS/"@) {
        Some("Firefox"@)
    } else {
        None
    }
}

/// The operating system that a user-agent text names, by the ordered rules.
pub open spec fn os_label(ua: Seq<char>) -> Option<Seq<char>> {
    if contains_text(ua, "Windows"@) {
        Some("Windows"@)
    } else if contains_text(ua, "iPhone"@) || contains_text(ua, "iPad"@) || contains_text(
        ua,
        "iPod"@,
    ) {
        Some("iOS"@)
    } else if contains_text(ua, "Macintosh"@) || contains_text(ua, "Mac OS X"@) {
        Some("macOS"@)
    } else if contains_text(ua, "Android"@) {
        Some("Android"@)
    } else if contains_text(ua, "CrOS"@) {
        Some("ChromeOS"@)
    } else if contains_text(ua, "Linux"@) {
        Some("Linux"@)
    } else {
        None
    }
}

/// The label shown for a session: browser and system where both are known.
pub open spec fn device_name(ua: Seq<char>) -> Seq<char> {
    match (browser_label(ua), os_label(ua)) {
        (Some(b), Some(o)) => b + " on "@ + o,
        (Some(b), None) => b,
        (None, Some(o)) => "Unknown browser on "@ + o,
        (None, None) => "Unknown device"@,
    }
}

/// The characters of an optional static label.
pub open spec fn label_view(label: Option<&'static str>) -> Option<Seq<char>> {
    match label {
        Some(s) => Some(s@),
        None => None,
    }
}

/// Finds the browser or client named by `ua`.
pub fn detect_browser(ua: &str) -> (label: Option<&'static str>)
    ensures
        label_view(label) == browser_label(ua@),
{
    let text = chars_of(ua);
    if contains_str(&text, "PostmanRuntime") {
        return Some("Postman");
    }
    if contains_str(&text, "Insomnia") {
        return Some("Insomnia");
    }
    if contains_str(&text, "curl") {
        return Some("curl");
    }
    if contains_str(&text, "Thunder Client") {
        return Some("Thunder Client");
    }
    if contains_str(&text, "Edg/") || contains_str(&text, "Edge/") {
        return Some("Edge");
    }
    if contains_str(&text, "OPR/") || contains_str(&text, "Opera") {
        return Some("Opera");
    }
    if contains_str(&text, "Brave") {
        return Some("Brave");
    }
    if contains_str(&text, "Vivaldi") {
        return Some("Vivaldi");
    }
    if contains_str(&text, "SamsungBrowser") {
        return Some("Samsung Internet");
    }
    if contains_str(&text, "Chrome/") || contains_str(&text, "CriOS/") {
        return Some("Chrome");
    }
    if contains_str(&text, "Safari/") {
        return Some("Safari");
    }
    if contains_str(&text, "Firefox/") || contains_str(&text, "FxiOS/") {
        return Some("Firefox");
    }
    None
}

/// Finds the operating system named by `ua`.
pub fn detect_os(ua: &str) -> (label: Option<&'static str>)
    ensures
        label_view(label) == os_label(ua@),
{
    let text = chars_of(ua);
    if contains_str(&text, "Windows") {
        return Some("Windows");
    }
    if contains_str(&text, "iPhone") || contains_str(&text, "iPad") || contains_str(
        &text,
        "iPod",
    ) {
        return Some("iOS");
    }
    if contains_str(&text, "Macintosh") || contains_str(&text, "Mac OS X") {
        return Some("macOS");
    }
    if contains_str(&text, "Android") {
        return Some("Android");
    }
    if contains_str(&text, "CrOS") {
        return Some("ChromeOS");
    }
    if contains_str(&text, "Linux") {
        return Some("Linux");
    }
    None
}

/// Turns a raw user-agent string into a label such as `Chrome on Windows`.
pub fn parse_device_name(user_agent: &str) -> (name: String)
    ensures
        name@ == device_name(user_agent@),
{
    let browser = detect_browser(user_agent);
    let os = detect_os(user_agent);
    match (browser, os) {
        (Some(b), Some(o)) => {
            let mut name = String::from_str(b);
            name.append(" on ");
            name.append(o);
            name
        },
        (Some(b), None) => String::from_str(b),
        (None, Some(o)) => {
            let mut name = String::from_str("Unknown browser on ");
            name.append(o);
            name
        },
        (None, None) => String::from_str("Unknown device"),
    }
}

/// A text that names Edge is labelled Edge although it names Chrome too,
/// unless it carries the marker of one of the API clients, which come first.
pub proof fn lemma_edge_wins_over_chrome(ua: Seq<char>)
    requires
        contains_text(ua, "Edg/"@) || contains_text(ua, "Edge/"@),
        !contains_text(ua, "PostmanRuntime"@),
        !contains_text(ua, "Insomnia"@),
        !contains_text(ua, "curl"@),
        !contains_text(ua, "Thunder Client"@),
    ensures
        browser_label(ua) == Some("Edge"@),
        os_label(ua) == Some("Windows"@) ==> device_name(ua) == "Edge on Windows"@,
{
    reveal_strlit("Edge");
    reveal_strlit(" on ");
    reveal_strlit("Windows");
    reveal_strlit("Edge on Windows");
    assert("Edge"@ + " on "@ + "Windows"@ =~= "Edge on Windows"@);
}

} // verus!
