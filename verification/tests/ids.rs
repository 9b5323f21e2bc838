use auth_core::combined::{format_combined_token, parse_combined_token, split_combined};
use auth_core::ids::Uuid;

#[test]
fn identifier_text_is_hyphenated_lower_case() {
    let id = Uuid::from_u128(0xa1a2a3a4_b1b2_c1c2_d1d2_d3d4d5d6d7d8);
    assert_eq!(id.to_string(), "a1a2a3a4-b1b2-c1c2-d1d2-d3d4d5d6d7d8");
    assert_eq!(Uuid::from_u128(1).to_string(), "00000000-0000-0000-0000-000000000001");
    assert_eq!(Uuid::from_u128(u128::MAX).to_string(), "ffffffff-ffff-ffff-ffff-ffffffffffff");
}

#[test]
fn identifier_text_reads_back() {
    let id = Uuid::new_v4();
    assert_eq!(Uuid::parse_str(&id.to_string()), Some(id));
    assert_eq!(id.as_u128(), id.value);
}

#[test]
fn identifier_is_read_from_every_form_of_the_crate() {
    let want = Some(Uuid::from_u128(0x550e8400_e29b_41d4_a716_446655440000));
    assert_eq!(Uuid::parse_str("550e8400-e29b-41d4-a716-446655440000"), want);
    assert_eq!(Uuid::parse_str("550E8400-E29B-41D4-A716-446655440000"), want);
    assert_eq!(Uuid::parse_str("550e8400e29b41d4a716446655440000"), want);
    assert_eq!(Uuid::parse_str("{550e8400-e29b-41d4-a716-446655440000}"), want);
}

#[test]
fn text_that_is_no_identifier_is_refused() {
    assert_eq!(Uuid::parse_str(""), None);
    assert_eq!(Uuid::parse_str("not-a-uuid"), None);
    assert_eq!(Uuid::parse_str("550e8400-e29b-41d4-a716-44665544000"), None);
    assert_eq!(Uuid::parse_str("550e8400-e29b-41d4-a716-44665544000g"), None);
}

#[test]
fn random_identifiers_differ() {
    assert_ne!(Uuid::new_v4(), Uuid::new_v4());
}

#[test]
fn combined_token_is_identifier_colon_secret() {
    let id = Uuid::from_u128(0x550e8400_e29b_41d4_a716_446655440000);
    let text = format_combined_token(id, "s3cret");
    assert_eq!(text, "550e8400-e29b-41d4-a716-446655440000:s3cret");
    assert_eq!(parse_combined_token(&text), Some((id, "s3cret".to_string())));
}

#[test]
fn combined_token_may_hold_an_empty_secret() {
    let id = Uuid::from_u128(7);
    let text = format_combined_token(id, "");
    assert_eq!(parse_combined_token(&text), Some((id, String::new())));
}

#[test]
fn combined_token_of_another_shape_is_refused() {
    assert_eq!(parse_combined_token(""), None);
    assert_eq!(parse_combined_token("550e8400-e29b-41d4-a716-446655440000"), None);
    assert_eq!(parse_combined_token("550e8400-e29b-41d4-a716-446655440000:a:b"), None);
    assert_eq!(parse_combined_token("nonsense:secret"), None);
    assert_eq!(parse_combined_token(":secret"), None);
    assert_eq!(parse_combined_token("urn:uuid:550e8400-e29b-41d4-a716-446655440000"), None);
}

#[test]
fn split_keeps_both_parts_as_they_are() {
    assert_eq!(split_combined("a:b"), Some(("a".to_string(), "b".to_string())));
    assert_eq!(split_combined(":"), Some((String::new(), String::new())));
    assert_eq!(split_combined("héllo:wörld"), Some(("héllo".to_string(), "wörld".to_string())));
    assert_eq!(split_combined("ab"), None);
    assert_eq!(split_combined("a::b"), None);
}

#[test]
fn random_identifier_is_of_version_four() {
    for _ in 0..32 {
        let id = Uuid::new_v4();
        assert_eq!((id.value >> 76) & 0xf, 4);
        assert_eq!((id.value >> 62) & 0x3, 2);
        let text: Vec<char> = id.to_string().chars().collect();
        assert_eq!(text[14], '4');
        assert!(['8', '9', 'a', 'b'].contains(&text[19]));
    }
}
