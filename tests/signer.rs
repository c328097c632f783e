use gluster_volume_plugin::signer::{
    claims_at, lower_hex, qsh, sign_token, sign_token_at, SignError, ISSUER, TOKEN_LIFETIME,
};

fn decode_claims(token: &str, secret: &str) -> serde_json::Value {
    let mut validation = jsonwebtoken::Validation::default();
    validation.validate_exp = false;
    jsonwebtoken::decode::<serde_json::Value>(
        token,
        &jsonwebtoken::DecodingKey::from_secret(secret.as_bytes()),
        &validation,
    )
    .expect("token decodes")
    .claims
}

#[test]
fn qsh_of_post_volumes() {
    assert_eq!(
        qsh("POST", "/volumes"),
        "3a9831a9908924e3f78fe948585f41849e92724522f5153cb91aff7f8ea48eac"
    );
}

#[test]
fn qsh_of_get_volume() {
    assert_eq!(
        qsh("GET", "/volumes/abc123"),
        "0b97a2163acd3aa435515101f35c15a50242a5c1d31cff0959f6596e99dc0530"
    );
}

#[test]
fn qsh_depends_on_method() {
    assert_ne!(qsh("GET", "/volumes"), qsh("POST", "/volumes"));
}

#[test]
fn lower_hex_digits() {
    assert_eq!(lower_hex(&[]), "");
    assert_eq!(lower_hex(&[0x00, 0x0f, 0xa0, 0xff, 0x5c]), "000fa0ff5c");
}

#[test]
fn claims_expire_thirty_seconds_after_issue() {
    let c = claims_at(1_600_000_000, "abc".to_string()).unwrap();
    assert_eq!(c.iss, "admin");
    assert_eq!(c.iat, 1_600_000_000);
    assert_eq!(c.exp, 1_600_000_030);
    assert_eq!(c.exp - c.iat, TOKEN_LIFETIME);
    assert_eq!(c.qsh, "abc");
    assert_eq!(ISSUER, "admin");
}

#[test]
fn claims_at_end_of_clock_range() {
    assert!(claims_at(i64::MAX - 30, String::new()).is_ok());
    assert_eq!(
        claims_at(i64::MAX - 29, String::new()).unwrap_err(),
        SignError::ClockOutOfRange
    );
}

#[test]
fn signed_token_carries_claims() {
    let token = sign_token_at("POST", "/volumes", "s3cret", 1_000).unwrap();
    let claims = decode_claims(&token, "s3cret");
    assert_eq!(claims["iss"], "admin");
    assert_eq!(claims["iat"], 1_000);
    assert_eq!(claims["exp"], 1_030);
    assert_eq!(
        claims["qsh"],
        "3a9831a9908924e3f78fe948585f41849e92724522f5153cb91aff7f8ea48eac"
    );
}

#[test]
fn signed_token_is_deterministic_for_one_moment() {
    let a = sign_token_at("GET", "/volumes", "k", 42).unwrap();
    let b = sign_token_at("GET", "/volumes", "k", 42).unwrap();
    let c = sign_token_at("GET", "/volumes", "k", 43).unwrap();
    assert_eq!(a, b);
    assert_ne!(a, c);
}

#[test]
fn sign_token_at_clock_out_of_range() {
    assert_eq!(
        sign_token_at("GET", "/volumes", "k", i64::MAX).unwrap_err(),
        SignError::ClockOutOfRange
    );
}

#[test]
fn sign_token_now_has_thirty_second_window() {
    let token = sign_token("GET", "/volumes", "admin").unwrap();
    let claims = decode_claims(&token, "admin");
    let iat = claims["iat"].as_i64().unwrap();
    let exp = claims["exp"].as_i64().unwrap();
    assert_eq!(exp - iat, 30);
    assert_eq!(claims["iss"], "admin");
}
