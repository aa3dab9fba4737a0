use gatha_transcribe::auth::{Claims, TOKEN_LIFETIME_SECONDS};

#[test]
fn claims_expire_after_thirty_days() {
    let c = Claims::issued_at("user-1".to_string(), 1_000);
    assert_eq!(c.sub, "user-1");
    assert_eq!(c.iat, 1_000);
    assert_eq!(c.exp, 1_000 + 30 * 24 * 3600);
    assert_eq!(TOKEN_LIFETIME_SECONDS, 2_592_000);
}

#[test]
fn claims_new_uses_current_time() {
    let c = Claims::new("user-2".to_string());
    assert_eq!(c.sub, "user-2");
    assert!(c.iat > 1_600_000_000);
    assert_eq!(c.exp - c.iat, TOKEN_LIFETIME_SECONDS);
}
