use std::collections::BTreeMap;

use authcore::b64::b64url_encode;
use authcore::errors::AuthError;
use authcore::token::mint_token;
use authcore::token::mint_token_at;
use authcore::token::AuthConfig;
use hmac::Mac;

type HmacSha384 = hmac::Hmac<sha2::Sha384>;
type Claims = BTreeMap<String, serde_json::Value>;

fn parse(token: &str) -> Claims {
    let parsed: jwt::Token<jwt::Header, Claims, _> = jwt::Token::parse_unverified(token).unwrap();
    parsed.claims().clone()
}

#[test]
fn minted_token_has_expected_segments() {
    let token = mint_token_at("topsecret", "user-42", "tenant-7", "example.com", 1_700_000_000)
        .unwrap();
    let segments: Vec<&str> = token.split('.').collect();
    assert_eq!(segments.len(), 3);
    assert_eq!(
        segments[0],
        b64url_encode("{\"alg\":\"HS384\",\"typ\":\"JWT\"}".as_bytes())
    );
    let expected_claims = "{\"exp\":1700000300,\"iat\":1700000000,\"iss\":\"example.com\",\
                           \"sub\":\"user-42\",\"tid\":\"tenant-7\"}";
    assert_eq!(segments[1], b64url_encode(expected_claims.as_bytes()));
}

#[test]
fn minted_claims_decode_exactly() {
    let token = mint_token_at("topsecret", "user-42", "tenant-7", "example.com", 1_700_000_000)
        .unwrap();
    let parsed: jwt::Token<jwt::Header, Claims, _> = jwt::Token::parse_unverified(&token).unwrap();
    assert_eq!(parsed.header().algorithm, jwt::AlgorithmType::Hs384);
    assert_eq!(parsed.header().type_, Some(jwt::header::HeaderType::JsonWebToken));
    let claims = parsed.claims().clone();
    assert_eq!(claims.len(), 5);
    assert_eq!(claims["sub"], serde_json::Value::String("user-42".to_string()));
    assert_eq!(claims["tid"], serde_json::Value::String("tenant-7".to_string()));
    assert_eq!(claims["iss"], serde_json::Value::String("example.com".to_string()));
    assert_eq!(claims["iat"].as_u64(), Some(1_700_000_000));
    assert_eq!(claims["exp"].as_u64(), Some(1_700_000_300));
}

#[test]
fn exp_is_iat_plus_300() {
    let token = mint_token_at("s", "a", "b", "issuer", 12_345).unwrap();
    let claims = parse(&token);
    assert_eq!(claims["iat"].as_u64(), Some(12_345));
    assert_eq!(claims["exp"].as_u64(), Some(12_645));
}

#[test]
fn signature_round_trips_under_same_secret() {
    let token = mint_token_at("topsecret", "user-42", "tenant-7", "example.com", 1_700_000_000)
        .unwrap();
    let segments: Vec<&str> = token.split('.').collect();
    let signing_input = format!("{}.{}", segments[0], segments[1]);
    let mut mac: HmacSha384 = Mac::new_from_slice(b"topsecret").unwrap();
    mac.update(signing_input.as_bytes());
    let tag = mac.finalize().into_bytes();
    assert_eq!(segments[2], b64url_encode(&tag));
}

#[test]
fn token_verifies_with_jwt_crate() {
    let token = mint_token_at("topsecret", "user-42", "tenant-7", "example.com", 1_700_000_000)
        .unwrap();
    let key: HmacSha384 = Mac::new_from_slice(b"topsecret").unwrap();
    let claims: Claims = jwt::VerifyWithKey::verify_with_key(token.as_str(), &key).unwrap();
    assert_eq!(claims["sub"], serde_json::Value::String("user-42".to_string()));
    let wrong_key: HmacSha384 = Mac::new_from_slice(b"other-secret").unwrap();
    let rejected: Result<Claims, jwt::Error> =
        jwt::VerifyWithKey::verify_with_key(token.as_str(), &wrong_key);
    assert!(rejected.is_err());
}

#[test]
fn special_characters_survive_claim_encoding() {
    let token = mint_token_at("k", "user \"quoted\"\n", "tenant\\7", "example.com", 1_000).unwrap();
    let claims = parse(&token);
    assert_eq!(
        claims["sub"],
        serde_json::Value::String("user \"quoted\"\n".to_string())
    );
    assert_eq!(claims["tid"], serde_json::Value::String("tenant\\7".to_string()));
}

#[test]
fn empty_issuer_argument_is_configuration_missing() {
    let r = mint_token_at("secret", "sub", "tid", "", 1_700_000_000);
    assert_eq!(r, Err(AuthError::ConfigurationMissing));
}

#[test]
fn missing_issuer_configuration_fails() {
    let config = AuthConfig { domain_name: None };
    let r = mint_token("secret", "sub", "tid", &config);
    assert_eq!(r, Err(AuthError::ConfigurationMissing));
}

#[test]
fn empty_issuer_configuration_fails() {
    let config = AuthConfig { domain_name: Some(String::new()) };
    let r = mint_token("secret", "sub", "tid", &config);
    assert_eq!(r, Err(AuthError::ConfigurationMissing));
}

#[test]
fn mint_token_reads_clock_once() {
    let config = AuthConfig { domain_name: Some("example.com".to_string()) };
    let token = mint_token("topsecret", "user-42", "tenant-7", &config).unwrap();
    let claims = parse(&token);
    let iat = claims["iat"].as_u64().unwrap();
    let exp = claims["exp"].as_u64().unwrap();
    assert_eq!(exp, iat + 300);
    // The clock read happened after this test suite was written.
    assert!(iat > 1_700_000_000);
    assert_eq!(claims["iss"], serde_json::Value::String("example.com".to_string()));
}
