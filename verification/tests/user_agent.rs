use auth_core::user_agent::{detect_browser, detect_os, parse_device_name};

#[test]
fn test_chrome_windows() {
    let ua = "Mozilla/5.0 (Windows NT 10.0; Win64; x64) AppleWebKit/537.36 (KHTML, like Gecko) Chrome/120.0.0.0 Safari/537.36";
    assert_eq!(parse_device_name(ua), "Chrome on Windows");
}

#[test]
fn test_firefox_macos() {
    let ua = "Mozilla/5.0 (Macintosh; Intel Mac OS X 10.15; rv:121.0) Gecko/20100101 Firefox/121.0";
    assert_eq!(parse_device_name(ua), "Firefox on macOS");
}

#[test]
fn test_safari_macos() {
    let ua = "Mozilla/5.0 (Macintosh; Intel Mac OS X 10_15_7) AppleWebKit/605.1.15 (KHTML, like Gecko) Version/17.2 Safari/605.1.15";
    assert_eq!(parse_device_name(ua), "Safari on macOS");
}

#[test]
fn test_edge_windows() {
    let ua = "Mozilla/5.0 (Windows NT 10.0; Win64; x64) AppleWebKit/537.36 (KHTML, like Gecko) Chrome/120.0.0.0 Safari/537.36 Edg/120.0.0.0";
    assert_eq!(parse_device_name(ua), "Edge on Windows");
}

#[test]
fn test_postman() {
    let ua = "PostmanRuntime/7.36.0";
    assert_eq!(parse_device_name(ua), "Postman");
}

#[test]
fn test_chrome_android() {
    let ua = "Mozilla/5.0 (Linux; Android 14; Pixel 8) AppleWebKit/537.36 (KHTML, like Gecko) Chrome/120.0.0.0 Mobile Safari/537.36";
    assert_eq!(parse_device_name(ua), "Chrome on Android");
}

#[test]
fn test_safari_ios() {
    let ua = "Mozilla/5.0 (iPhone; CPU iPhone OS 17_2 like Mac OS X) AppleWebKit/605.1.15 (KHTML, like Gecko) Version/17.2 Mobile/15E148 Safari/604.1";
    assert_eq!(parse_device_name(ua), "Safari on iOS");
}

#[test]
fn test_unknown() {
    let ua = "some-random-client/1.0";
    assert_eq!(parse_device_name(ua), "Unknown device");
}

#[test]
fn unknown_browser_on_known_system() {
    assert_eq!(parse_device_name("Fetcher (Linux x86_64)"), "Unknown browser on Linux");
}

#[test]
fn browser_without_system() {
    assert_eq!(parse_device_name("curl/8.4.0"), "curl");
}

#[test]
fn brave_and_opera_win_over_chrome() {
    assert_eq!(detect_browser("Chrome/120.0 Brave/1.2 Safari/537.36"), Some("Brave"));
    assert_eq!(detect_browser("Chrome/120.0 Safari/537.36 OPR/106.0"), Some("Opera"));
    assert_eq!(detect_browser("Chrome/120.0 Safari/537.36"), Some("Chrome"));
    assert_eq!(detect_browser(""), None);
}

#[test]
fn android_wins_over_linux_and_ios_over_macos() {
    assert_eq!(detect_os("Linux; Android 14"), Some("Android"));
    assert_eq!(detect_os("iPad; CPU OS 17 like Mac OS X"), Some("iOS"));
    assert_eq!(detect_os("X11; CrOS x86_64"), Some("ChromeOS"));
    assert_eq!(detect_os("X11; Linux x86_64"), Some("Linux"));
    assert_eq!(detect_os("nothing"), None);
}
