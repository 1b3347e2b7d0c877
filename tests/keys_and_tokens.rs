use tracker_load::project_key::{generate_project_key, project_key_with};
use tracker_load::token::{
    captcha_expiry, captcha_token_at, checked_subject, create_captcha_token, prefixed_captcha_token, remove_all,
    verify_captcha_token, TokenError,
};

#[test]
fn test_generate_project_key() {
    let title = "Awesome Test Project";
    let key = generate_project_key(title);
    assert!(key.starts_with("ATP"));
    assert!(key.len() > 3);
}

#[test]
fn test_create_captcha_token() {
    // Generate token
    let token = create_captcha_token("secret").unwrap();
    assert!(token.len() > 0);
    assert!(token.starts_with("x-client-login:"));

    // Validate claims
    let sub = verify_captcha_token(&token, "secret").unwrap();
    assert_eq!(sub, "x-client-login");
}

#[test]
fn project_key_takes_letters_only_and_uppercases() {
    assert_eq!(project_key_with("awesome  test\tproject", 7), "ATP7");
    assert_eq!(project_key_with(" 9lives of a cat", 42), "OAC42");
    assert_eq!(project_key_with("", 1), "1");
    assert_eq!(project_key_with("élan vital", 99), "V99");
}

#[test]
fn project_key_number_in_range() {
    for _ in 0..200 {
        let key = generate_project_key("Big Old Project");
        let number: u32 = key[3..].parse().unwrap();
        assert!(key.starts_with("BOP"));
        assert!((1..=99).contains(&number));
    }
}

#[test]
fn captcha_token_rejected_under_wrong_secret() {
    let token = create_captcha_token("secret").unwrap();
    assert_eq!(verify_captcha_token(&token, "other"), Err(TokenError::Decoding));
}

#[test]
fn captcha_token_signed_part_is_a_jwt() {
    let token = create_captcha_token("secret").unwrap();
    let raw = &token["x-client-login:".len()..];
    assert_eq!(raw.split('.').count(), 3);
}

#[test]
fn captcha_expiry_is_two_hours_later() {
    assert_eq!(captcha_expiry(1_000), 8_200);
    assert_eq!(captcha_expiry(-10_000), 0);
    assert_eq!(captcha_expiry(i64::MAX), i64::MAX as u64);
}

#[test]
fn prefix_is_put_before_signed_token() {
    assert_eq!(prefixed_captcha_token(Some("a.b.c".to_string())), Ok("x-client-login:a.b.c".to_string()));
    assert_eq!(prefixed_captcha_token(None), Err(TokenError::Signing));
}

#[test]
fn remove_all_takes_out_every_occurrence() {
    assert_eq!(remove_all("x-client-login:abc", "x-client-login:"), "abc");
    assert_eq!(remove_all("ababab", "ab"), "");
    assert_eq!(remove_all("aaa", "aa"), "a");
    assert_eq!(remove_all("hello", ""), "hello");
    assert_eq!(remove_all("hello", "xyz"), "hello");
}

#[test]
fn checked_subject_cases() {
    assert_eq!(checked_subject(None), Err(TokenError::Decoding));
    assert_eq!(checked_subject(Some(String::new())), Err(TokenError::EmptySubject));
    assert_eq!(checked_subject(Some("me".to_string())), Ok("me".to_string()));
}

#[test]
fn captcha_token_at_is_deterministic() {
    let a = captcha_token_at("secret", 1_700_000_000).unwrap();
    let b = captcha_token_at("secret", 1_700_000_000).unwrap();
    let c = captcha_token_at("other", 1_700_000_000).unwrap();
    assert_eq!(a, b);
    assert_ne!(a, c);
    assert!(a.starts_with("x-client-login:"));
}
