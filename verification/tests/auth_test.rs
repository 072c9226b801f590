use backend::gql::auth::{extract_jwt, require_scope, token_key_request, Auth, AuthBuilder, Scope};
use backend::gql::error::ErrorCode;
use backend::gql::keys::{KeyCache, KeySet};
use backend::strutil::split_ascii_tokens;

const SECRET: &[u8] = b"a-string-secret-at-least-256-bits-long";
const SECRET_JWK: &str = "{\"kty\":\"oct\",\"k\":\"YS1zdHJpbmctc2VjcmV0LWF0LWxlYXN0LTI1Ni1iaXRzLWxvbmc\",\"kid\":\"key-1\"}";
const DOMAIN: &str = "https://idp.example.com";
const AUDIENCE: &str = "https://api.example.com";

fn builder() -> AuthBuilder {
    AuthBuilder {
        logto_domain: DOMAIN.to_string(),
        resource_indicator: AUDIENCE.to_string(),
    }
}

fn loaded_cache() -> KeyCache {
    let jwk: jsonwebtoken::jwk::Jwk = serde_json::from_str(SECRET_JWK).expect("jwk parses");
    let set = KeySet::from_jwks(&vec![jwk]);
    let mut cache = KeyCache::new();
    cache.install(set, 1000);
    cache
}

fn sign_token(claims_json: &str, kid: Option<&str>) -> String {
    let claims: serde_json::Value = serde_json::from_str(claims_json).expect("claims parse");
    let mut header = jsonwebtoken::Header::new(jsonwebtoken::Algorithm::HS256);
    header.kid = kid.map(|k| k.to_string());
    jsonwebtoken::encode(&header, &claims, &jsonwebtoken::EncodingKey::from_secret(SECRET))
        .expect("token signs")
}

fn good_claims(scope: &str) -> String {
    let now = jsonwebtoken::get_current_timestamp();
    format!(
        "{{\"iss\":\"{DOMAIN}/oidc\",\"aud\":\"{AUDIENCE}\",\"sub\":\"user-7\",\"scope\":\"{scope}\",\"exp\":{},\"nbf\":{}}}",
        now + 3600,
        now.saturating_sub(10)
    )
}

#[test]
fn test_scope_strings() {
    assert_eq!(Scope::ReadResource.as_str(), "read:resource");
    assert_eq!(Scope::WriteResource.as_str(), "write:resource");
    assert_eq!(Scope::Challenge.as_str(), "challenge");
    assert_eq!(Scope::ReadPublicResource.as_str(), "read:public_resource");
    assert_eq!(Scope::ReadSolution.as_str(), "read:solution");
    assert_eq!(Scope::Execution.as_str(), "execute:query");
    assert_eq!(Scope::ReadAnswer.as_str(), "read:answer");
}

#[test]
fn test_has_scope_membership() {
    let auth = Auth::new(
        vec!["read:resource".to_string(), "execute:query".to_string()],
        None,
    );
    assert!(auth.has_scope(Scope::ReadResource));
    assert!(auth.has_scope(Scope::Execution));
    assert!(!auth.has_scope(Scope::WriteResource));
    assert!(!auth.has_scope(Scope::ReadAnswer));
}

#[test]
fn test_require_scope_without_credential() {
    let err = require_scope(None, Scope::ReadResource).expect_err("must fail");
    assert!(matches!(err.code, ErrorCode::Unauthorized));
    assert_eq!(err.title, "Unauthorized");
    assert_eq!(err.details, "You must provide a credential to access this API.");

    let err2 = require_scope(None, Scope::Execution).expect_err("must fail for any scope");
    assert_eq!(err2.details, "You must provide a credential to access this API.");
}

#[test]
fn test_require_scope_with_credential() {
    let auth = Auth::new(vec!["read:resource".to_string()], None);
    assert!(require_scope(Some(&auth), Scope::ReadResource).is_ok());

    let err = require_scope(Some(&auth), Scope::Execution).expect_err("missing scope");
    assert!(matches!(err.code, ErrorCode::Unauthorized));
    assert_eq!(err.details, "execute:query is required to perform this action");
}

#[test]
fn test_extract_jwt_bearer() {
    assert_eq!(
        extract_jwt(Some("Bearer abc.def.ghi")),
        Some("abc.def.ghi".to_string())
    );
    assert_eq!(extract_jwt(Some("Bearer ")), Some(String::new()));
    assert_eq!(extract_jwt(Some("Basic abc")), None);
    assert_eq!(extract_jwt(Some("bearer abc")), None);
    assert_eq!(extract_jwt(Some("Bear")), None);
    assert_eq!(extract_jwt(None), None);
}

#[test]
fn test_split_ascii_tokens_cases() {
    let empty: Vec<String> = Vec::new();
    assert_eq!(split_ascii_tokens(""), empty);
    assert_eq!(split_ascii_tokens("   \t\n"), empty);
    assert_eq!(split_ascii_tokens("one"), vec!["one".to_string()]);
    assert_eq!(
        split_ascii_tokens("  read:resource\texecute:query \n read:answer  "),
        vec![
            "read:resource".to_string(),
            "execute:query".to_string(),
            "read:answer".to_string()
        ]
    );
}

#[test]
fn test_key_cache_ttl_window() {
    let cache = loaded_cache();
    assert!(cache.is_fresh(1000));
    assert!(cache.is_fresh(1000 + 3599));
    assert!(!cache.is_fresh(1000 + 3600));
    assert!(!cache.is_fresh(1000 + 3601));
    assert!(!KeyCache::new().is_fresh(0));
}

#[test]
fn test_key_lookup_by_kid() {
    let cache = loaded_cache();
    assert!(cache.get_signing_key("key-1").is_ok());
    assert!(cache.get_signing_key("key-2").is_err());
    assert!(KeyCache::new().get_signing_key("key-1").is_err());
}

#[test]
fn test_validate_token_grants_exact_scopes() {
    let cache = loaded_cache();
    let token = sign_token(&good_claims("read:resource execute:query"), Some("key-1"));

    let (alg, kid) = token_key_request(&token).expect("header decodes");
    let kid = kid.expect("kid present");
    assert_eq!(kid, "key-1");

    let key = cache.get_signing_key(&kid).expect("key found");
    let auth = builder().authenticate(&token, key, alg).expect("token validates");

    assert!(auth.has_scope(Scope::ReadResource));
    assert!(auth.has_scope(Scope::Execution));
    assert!(!auth.has_scope(Scope::ReadAnswer));
    assert!(!auth.has_scope(Scope::WriteResource));
    assert_eq!(auth.subject().map(|s| s.as_str()), Some("user-7"));
}

#[test]
fn test_validate_rejects_wrong_audience() {
    let cache = loaded_cache();
    let now = jsonwebtoken::get_current_timestamp();
    let claims = format!(
        "{{\"iss\":\"{DOMAIN}/oidc\",\"aud\":\"https://other.example.com\",\"scope\":\"read:resource\",\"exp\":{}}}",
        now + 3600
    );
    let token = sign_token(&claims, Some("key-1"));

    let (alg, kid) = token_key_request(&token).expect("header decodes");
    let key = cache.get_signing_key(&kid.unwrap()).expect("key found");
    assert!(builder().authenticate(&token, key, alg).is_err());
}

#[test]
fn test_validate_rejects_wrong_issuer() {
    let cache = loaded_cache();
    let now = jsonwebtoken::get_current_timestamp();
    let claims = format!(
        "{{\"iss\":\"https://other.example.com/oidc\",\"aud\":\"{AUDIENCE}\",\"scope\":\"read:resource\",\"exp\":{}}}",
        now + 3600
    );
    let token = sign_token(&claims, Some("key-1"));

    let (alg, kid) = token_key_request(&token).expect("header decodes");
    let key = cache.get_signing_key(&kid.unwrap()).expect("key found");
    assert!(builder().authenticate(&token, key, alg).is_err());
}

#[test]
fn test_validate_rejects_not_yet_valid() {
    let cache = loaded_cache();
    let now = jsonwebtoken::get_current_timestamp();
    let claims = format!(
        "{{\"iss\":\"{DOMAIN}/oidc\",\"aud\":\"{AUDIENCE}\",\"scope\":\"read:resource\",\"exp\":{},\"nbf\":{}}}",
        now + 7200,
        now + 3600
    );
    let token = sign_token(&claims, Some("key-1"));

    let (alg, kid) = token_key_request(&token).expect("header decodes");
    let key = cache.get_signing_key(&kid.unwrap()).expect("key found");
    assert!(builder().authenticate(&token, key, alg).is_err());
}

#[test]
fn test_validate_rejects_missing_audience_claim() {
    let cache = loaded_cache();
    let now = jsonwebtoken::get_current_timestamp();
    let claims = format!(
        "{{\"iss\":\"{DOMAIN}/oidc\",\"scope\":\"read:resource\",\"exp\":{}}}",
        now + 3600
    );
    let token = sign_token(&claims, Some("key-1"));

    let (alg, kid) = token_key_request(&token).expect("header decodes");
    let key = cache.get_signing_key(&kid.unwrap()).expect("key found");
    assert!(builder().authenticate(&token, key, alg).is_err());
}

#[test]
fn test_validate_rejects_missing_issuer_claim() {
    let cache = loaded_cache();
    let now = jsonwebtoken::get_current_timestamp();
    let claims = format!(
        "{{\"aud\":\"{AUDIENCE}\",\"scope\":\"read:resource\",\"exp\":{}}}",
        now + 3600
    );
    let token = sign_token(&claims, Some("key-1"));

    let (alg, kid) = token_key_request(&token).expect("header decodes");
    let key = cache.get_signing_key(&kid.unwrap()).expect("key found");
    assert!(builder().authenticate(&token, key, alg).is_err());
}

#[test]
fn test_jwk_without_kid_yields_no_entry() {
    let no_kid = "{\"kty\":\"oct\",\"k\":\"YS1zdHJpbmctc2VjcmV0LWF0LWxlYXN0LTI1Ni1iaXRzLWxvbmc\"}";
    let jwk: jsonwebtoken::jwk::Jwk = serde_json::from_str(no_kid).expect("jwk parses");
    let set = KeySet::from_jwks(&vec![jwk]);
    let mut cache = KeyCache::new();
    cache.install(set, 1000);
    assert!(cache.get_signing_key("key-1").is_err());
}

#[test]
fn test_token_key_request_reads_kid_from_header() {
    let token = sign_token(&good_claims("read:resource"), None);
    let (_, kid) = token_key_request(&token).expect("header decodes");
    assert_eq!(kid, None);

    let token2 = sign_token(&good_claims("read:resource"), Some("other-key"));
    let (_, kid2) = token_key_request(&token2).expect("header decodes");
    assert_eq!(kid2.as_deref(), Some("other-key"));
}

#[test]
fn test_validate_rejects_tampered_token() {
    let cache = loaded_cache();
    let token = sign_token(&good_claims("read:resource"), Some("key-1"));
    let mut tampered = token.clone();
    tampered.pop();
    tampered.push('A');

    let (alg, kid) = token_key_request(&token).expect("header decodes");
    let key = cache.get_signing_key(&kid.unwrap()).expect("key found");
    assert!(builder().authenticate(&tampered, key, alg).is_err());
}

#[test]
fn test_malformed_header_fails_without_key() {
    assert!(token_key_request("not-a-token").is_err());
    assert!(token_key_request("").is_err());
}

#[test]
fn test_issuer_and_jwks_endpoints() {
    let b = builder();
    assert_eq!(b.issuer(), "https://idp.example.com/oidc");
    assert_eq!(b.jwks_url(), "https://idp.example.com/oidc/jwks");
}
