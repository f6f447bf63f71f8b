use axum::http::{HeaderMap, HeaderName, HeaderValue};
use jsonwebtoken::jwk::JwkSet;
use jsonwebtoken::{Algorithm, DecodingKey, EncodingKey, Header, Validation};
use screentime_monitor::auth::{
    access_after_authentication, access_after_validation, authenticate_cf_jwt,
    cf_access_claims_read, cf_access_keys_fetched, cf_access_middleware, choose_key,
    claims_are_stated, conclude_authentication, conclude_validation, extract_cf_jwt, identity_of,
    is_success, judge_status, refuse, validate_cf_jwt, AccessStep, CfAccessClaims, CfAccessConfig,
    JwksCache, JwksReply, JwtStep, JwtVerdict, KeyChoice, CF_ACCESS_JWT_HEADER, MISREAD_CLAIMS,
    UNAUTHORIZED, UNREADABLE_TOKEN,
};
use screentime_monitor::jwt::{DecodeError, TokenHeader};

const AUDIENCE: &str = "app-audience";
const ISSUER: &str = "https://myteam.cloudflareaccess.com";
const CERTS: &str = "https://myteam.cloudflareaccess.com/cdn-cgi/access/certs";
const FAR_FUTURE: u64 = 32_503_680_000;

/// Keys `k1` ("secret"), a second `k1` ("other"), `broken` (not base64) and one without an id.
fn key_set() -> JwkSet {
    let text = r#"{"keys":[
        {"kty":"oct","alg":"HS256","k":"YW5vbnltb3Vz"},
        {"kty":"oct","kid":"broken","alg":"HS256","k":"!!!"},
        {"kty":"oct","kid":"k1","alg":"HS256","k":"c2VjcmV0"},
        {"kty":"oct","kid":"k1","alg":"HS256","k":"b3RoZXI"}
    ]}"#;
    serde_json::from_str(text).unwrap()
}

fn claims(audience: &str, issuer: &str, exp: u64) -> serde_json::Value {
    let mut members = serde_json::Map::new();
    members.insert("email".to_string(), "user@example.com".into());
    members.insert("sub".to_string(), "user-1".into());
    members.insert("iat".to_string(), 1000u64.into());
    members.insert("exp".to_string(), exp.into());
    members.insert("aud".to_string(), audience.into());
    members.insert("iss".to_string(), issuer.into());
    serde_json::Value::Object(members)
}

fn token_of(kid: Option<&str>, secret: &str, claims: &serde_json::Value) -> String {
    let mut header = Header::new(Algorithm::HS256);
    header.kid = kid.map(|id| id.to_string());
    jsonwebtoken::encode(&header, claims, &EncodingKey::from_secret(secret.as_bytes())).unwrap()
}

/// `bytes` in the base64 of tokens.
fn base64(bytes: &[u8]) -> String {
    let digits = b"ABCDEFGHIJKLMNOPQRSTUVWXYZabcdefghijklmnopqrstuvwxyz0123456789-_";
    let mut text = String::new();
    for chunk in bytes.chunks(3) {
        let mut group: u32 = 0;
        for i in 0..3 {
            group = group << 8 | u32::from(chunk.get(i).copied().unwrap_or(0));
        }
        for i in 0..=chunk.len() {
            text.push(char::from(digits[(group >> (18 - 6 * i) & 63) as usize]));
        }
    }
    text
}

/// A token signed with `k1` whose payload is `payload`, byte for byte.
fn raw_token(payload: &[u8]) -> String {
    let header = good_token().split('.').next().unwrap().to_string();
    let message = format!("{}.{}", header, base64(payload));
    let key = EncodingKey::from_secret(b"secret");
    let signature = jsonwebtoken::crypto::sign(message.as_bytes(), &key, Algorithm::HS256).unwrap();
    format!("{}.{}", message, signature)
}

fn good_token() -> String {
    token_of(Some("k1"), "secret", &claims(AUDIENCE, ISSUER, FAR_FUTURE))
}

fn full_cache() -> JwksCache {
    let mut cache = JwksCache::new("myteam".to_string());
    assert!(cache.refresh(Ok(key_set())).is_ok());
    cache
}

fn config(cache: JwksCache) -> CfAccessConfig {
    CfAccessConfig { jwks_cache: cache, audience: AUDIENCE.to_string() }
}

fn headers_with(token: &str) -> HeaderMap {
    let mut headers = HeaderMap::new();
    headers.insert(
        HeaderName::from_static("cf-access-jwt-assertion"),
        HeaderValue::from_str(token).unwrap(),
    );
    headers
}

/// What the claims of the tokens here read as.
fn read_claims() -> CfAccessClaims {
    CfAccessClaims {
        email: "user@example.com".to_string(),
        sub: "user-1".to_string(),
        identity_nonce: None,
        iat: 1000,
        exp: FAR_FUTURE,
    }
}

fn validated(token: &str, cache: &JwksCache) -> JwtVerdict {
    validate_cf_jwt(token, cache, AUDIENCE, Ok(read_claims()))
}

fn reason(verdict: JwtVerdict) -> String {
    match verdict {
        JwtVerdict::Invalid(reason) => reason,
        JwtVerdict::KeysNeeded(url) => panic!("keys needed from {}", url),
        JwtVerdict::Valid(identity) => panic!("accepted: {:?}", identity),
    }
}

fn step_reason(step: JwtStep) -> String {
    match step {
        JwtStep::Invalid(reason) => reason,
        JwtStep::KeysNeeded(url) => panic!("keys needed from {}", url),
        JwtStep::Authentic => panic!("authentic"),
    }
}

fn rejection(access: AccessStep) -> (u16, String) {
    match access {
        AccessStep::Reject { status, body } => (status, body),
        AccessStep::Proceed(identity) => panic!("served: {:?}", identity),
        AccessStep::FetchKeys(url) => panic!("keys needed from {}", url),
        AccessStep::ReadClaims(text) => panic!("accepted: {}", text),
    }
}

#[test]
fn test_jwks_url() {
    let cache = JwksCache::new("myteam".to_string());
    assert_eq!(
        cache.jwks_url(),
        "https://myteam.cloudflareaccess.com/cdn-cgi/access/certs"
    );
}

#[test]
fn test_config_from_env_missing() {
    // Should return None when the variables are not set
    assert!(CfAccessConfig::from_env(None, None).is_none());
}

#[test]
fn config_needs_both_variables_nonempty() {
    let some = |text: &str| Some(text.to_string());
    assert!(CfAccessConfig::from_env(some("t"), None).is_none());
    assert!(CfAccessConfig::from_env(None, some("a")).is_none());
    assert!(CfAccessConfig::from_env(some(""), some("a")).is_none());
    assert!(CfAccessConfig::from_env(some("t"), some("")).is_none());
    let config = CfAccessConfig::from_env(some("t"), some("a")).unwrap();
    assert_eq!(config.audience, "a");
    assert_eq!(config.jwks_cache.issuer(), "https://t.cloudflareaccess.com");
    assert!(config.jwks_cache.get_jwks().is_none());
}

#[test]
fn keys_come_from_issuer() {
    let cache = JwksCache::new("myteam".to_string());
    assert_eq!(cache.issuer(), ISSUER);
    assert_eq!(cache.jwks_url(), format!("{}/cdn-cgi/access/certs", cache.issuer()));
}

#[test]
fn success_statuses() {
    assert!(!is_success(199));
    assert!(is_success(200));
    assert!(is_success(299));
    assert!(!is_success(300));
    assert!(!is_success(404));
    assert!(judge_status(204, "204 No Content".to_string()).is_none());
    match judge_status(404, "404 Not Found".to_string()) {
        Some(JwksReply::Refused(status)) => assert_eq!(status, "404 Not Found"),
        _ => panic!("not refused"),
    }
}

#[test]
fn fetch_errors_are_worded() {
    let text = |reply| JwksCache::fetch_jwks(reply).unwrap_err();
    assert_eq!(text(JwksReply::Unreachable("no route".to_string())), "Failed to fetch JWKS: no route");
    assert_eq!(
        text(JwksReply::Refused("404 Not Found".to_string())),
        "JWKS fetch returned status: 404 Not Found"
    );
    assert_eq!(text(JwksReply::Body(Err("bad".to_string()))), "Failed to parse JWKS: bad");
    assert_eq!(JwksCache::fetch_jwks(JwksReply::Body(Ok(key_set()))).unwrap().keys.len(), 4);
}

#[test]
fn refresh_replaces_or_keeps() {
    let mut cache = JwksCache::new("myteam".to_string());
    assert!(cache.get_jwks().is_none());
    assert_eq!(cache.refresh(Err("down".to_string())), Err("down".to_string()));
    assert!(cache.get_jwks().is_none());
    assert_eq!(cache.refresh(Ok(key_set())), Ok(()));
    assert_eq!(cache.get_jwks().unwrap().keys.len(), 4);
    assert_eq!(cache.refresh(Err("down".to_string())), Err("down".to_string()));
    assert_eq!(cache.get_jwks().unwrap().keys.len(), 4);
    assert_eq!(cache.refresh(Ok(JwkSet { keys: vec![] })), Ok(()));
    assert_eq!(cache.get_jwks().unwrap().keys.len(), 0);
}

#[test]
fn signature_makes_a_token_authentic() {
    let authentic = |token: &str| {
        matches!(authenticate_cf_jwt(token, &full_cache()), JwtStep::Authentic)
    };
    assert!(authentic(&good_token()));
    assert!(authentic(&token_of(Some("k1"), "secret", &claims("else", "https://else", 1000))));
    assert!(authentic(&raw_token(b"no JSON")));
    assert_eq!(raw_token(claims(AUDIENCE, ISSUER, FAR_FUTURE).to_string().as_bytes()), good_token());
    let forged = token_of(Some("k1"), "other", &claims(AUDIENCE, ISSUER, FAR_FUTURE));
    assert_eq!(
        step_reason(authenticate_cf_jwt(&forged, &full_cache())),
        "JWT validation failed: InvalidSignature"
    );
}

#[test]
fn ill_formed_utf8_that_nobody_reads_is_passed_over() {
    let payload = |ignored: &[u8], audience: &str| {
        let mut bytes = b"{\"name\":\"".to_vec();
        bytes.extend_from_slice(ignored);
        bytes.extend_from_slice(b"\",");
        bytes.extend_from_slice(
            &claims(audience, ISSUER, FAR_FUTURE).to_string().as_bytes()[1..],
        );
        bytes
    };
    for ignored in [&b"plain"[..], &b"\xff\xfe"[..]] {
        let token = raw_token(&payload(ignored, AUDIENCE));
        assert!(matches!(authenticate_cf_jwt(&token, &full_cache()), JwtStep::Authentic));
        assert!(matches!(validated(&token, &full_cache()), JwtVerdict::Valid(_)));
        let token = raw_token(&payload(ignored, "else"));
        assert_eq!(
            reason(validated(&token, &full_cache())),
            "JWT validation failed: InvalidAudience"
        );
    }
}

#[test]
fn misread_claims_are_refused() {
    let misread = |change: fn(&mut CfAccessClaims)| {
        let mut claims = read_claims();
        change(&mut claims);
        reason(validate_cf_jwt(&good_token(), &full_cache(), AUDIENCE, Ok(claims)))
    };
    assert_eq!(MISREAD_CLAIMS, "JWT claims are not those of the token");
    assert_eq!(misread(|claims| claims.email.push('x')), MISREAD_CLAIMS);
    assert_eq!(misread(|claims| claims.sub.clear()), MISREAD_CLAIMS);
    assert_eq!(misread(|claims| claims.identity_nonce = Some("n".to_string())), MISREAD_CLAIMS);
    assert_eq!(misread(|claims| claims.iat += 1), MISREAD_CLAIMS);
    assert_eq!(misread(|claims| claims.exp -= 1), MISREAD_CLAIMS);
}

#[test]
fn claims_are_looked_up_in_their_text() {
    let stated = |text: &str, claims: &CfAccessClaims| claims_are_stated(&Ok(text.to_string()), claims);
    let mut claims = read_claims();
    claims.email = "a\"b".to_string();
    claims.exp = u64::MAX;
    let start = r#"{"email":"a\u0022b","sub":"user-1","iat":1000,"exp":18446744073709551615"#;
    assert!(stated(&format!("{},\"aud\":null}}", start), &claims));
    assert!(stated(&format!("{},\"aud\":[],\"identity_nonce\":null}}", start), &claims));
    assert!(!stated(&format!("{}}}", start), &claims));
    assert!(!stated(&format!("{},\"aud\":1,\"identity_nonce\":1}}", start), &claims));
    claims.identity_nonce = Some("n".to_string());
    assert!(stated(&format!("{},\"aud\":1,\"identity_nonce\":\"n\"}}", start), &claims));
    assert!(!stated(&format!("{},\"aud\":1}}", start), &claims));
    assert!(!stated("[]", &claims));
    assert!(!stated(r#"{"email":1,"sub":2,"iat":"1000","exp":-1,"aud":1}"#, &claims));
    assert!(stated("no JSON", &claims));
    assert!(claims_are_stated(&Err(DecodeError::Json("no text".to_string())), &claims));
}

#[test]
fn valid_token_states_what_was_read() {
    match validated(&good_token(), &full_cache()) {
        JwtVerdict::Valid(identity) => {
            assert_eq!(identity.email, "user@example.com");
            assert_eq!(identity.exp, FAR_FUTURE);
        }
        other => panic!("{}", reason(other)),
    }
}

#[test]
fn audience_list_must_hold_the_audience() {
    let mut with_list = claims(AUDIENCE, ISSUER, FAR_FUTURE);
    with_list["aud"] = vec!["someone".to_string(), AUDIENCE.to_string()].into();
    let token = token_of(Some("k1"), "secret", &with_list);
    assert!(matches!(validated(&token, &full_cache()), JwtVerdict::Valid(_)));
    with_list["aud"] = vec!["someone".to_string()].into();
    let token = token_of(Some("k1"), "secret", &with_list);
    assert_eq!(
        reason(validated(&token, &full_cache())),
        "JWT validation failed: InvalidAudience"
    );
}

#[test]
fn escapes_in_claims_do_not_hide_the_audience() {
    let mut escaped = claims("else", ISSUER, FAR_FUTURE);
    escaped["email"] = "a\\\"b$\n".into();
    let token = token_of(Some("k1"), "secret", &escaped);
    assert_eq!(
        reason(validated(&token, &full_cache())),
        "JWT validation failed: InvalidAudience"
    );
}

#[test]
fn invalid_tokens_are_told_apart() {
    let cache = full_cache();
    let why = |token: &str| reason(validated(token, &cache));
    assert_eq!(why("not-a-token"), "Failed to decode JWT header: InvalidToken");
    assert_eq!(
        why(&token_of(None, "secret", &claims(AUDIENCE, ISSUER, FAR_FUTURE))),
        "JWT header missing 'kid' field"
    );
    assert_eq!(
        why(&token_of(Some("k9"), "secret", &claims(AUDIENCE, ISSUER, FAR_FUTURE))),
        "No matching key found for kid: k9"
    );
    assert!(why(&token_of(Some("broken"), "secret", &claims(AUDIENCE, ISSUER, FAR_FUTURE)))
        .starts_with("Failed to create decoding key from JWK: Base64 error: "));
    assert_eq!(
        why(&token_of(Some("k1"), "other", &claims(AUDIENCE, ISSUER, FAR_FUTURE))),
        "JWT validation failed: InvalidSignature"
    );
    assert_eq!(
        why(&token_of(Some("k1"), "secret", &claims("else", ISSUER, FAR_FUTURE))),
        "JWT validation failed: InvalidAudience"
    );
    assert_eq!(
        why(&token_of(Some("k1"), "secret", &claims(AUDIENCE, "https://else", FAR_FUTURE))),
        "JWT validation failed: InvalidIssuer"
    );
    assert_eq!(
        why(&token_of(Some("k1"), "secret", &claims(AUDIENCE, ISSUER, 1000))),
        "JWT validation failed: ExpiredSignature"
    );
}

#[test]
fn token_without_expiry_is_invalid() {
    let mut unlimited = claims(AUDIENCE, ISSUER, FAR_FUTURE);
    unlimited.as_object_mut().unwrap().remove("exp");
    let token = token_of(Some("k1"), "secret", &unlimited);
    assert_eq!(
        reason(validated(&token, &full_cache())),
        "JWT validation failed: Missing required claim: exp"
    );
}

#[test]
fn unreadable_claims_come_between_signature_and_checks() {
    let cache = full_cache();
    let why = |token: &str| {
        reason(validate_cf_jwt(token, &cache, AUDIENCE, Err("JSON error: missing field `email`".to_string())))
    };
    let unreadable = "JWT validation failed: JSON error: missing field `email`";
    assert_eq!(why(&good_token()), unreadable);
    assert_eq!(
        why(&token_of(Some("k1"), "secret", &claims("else", "https://else", 1000))),
        unreadable
    );
    assert_eq!(
        why(&token_of(Some("k1"), "other", &claims(AUDIENCE, ISSUER, FAR_FUTURE))),
        "JWT validation failed: InvalidSignature"
    );
    assert_eq!(
        why(&token_of(None, "secret", &claims(AUDIENCE, ISSUER, FAR_FUTURE))),
        "JWT header missing 'kid' field"
    );
    assert_eq!(why(&raw_token(b"[]")), unreadable);
    assert_eq!(why(&raw_token(b"  {")), unreadable);
    let header = good_token().split('.').next().unwrap().to_string();
    let key = EncodingKey::from_secret(b"secret");
    let message = format!("{}.!!!", header);
    let signature = jsonwebtoken::crypto::sign(message.as_bytes(), &key, Algorithm::HS256).unwrap();
    assert!(why(&format!("{}.{}", message, signature))
        .starts_with("JWT validation failed: Base64 error: "));
}

#[test]
fn keys_are_needed_only_for_a_readable_header() {
    let cache = JwksCache::new("myteam".to_string());
    match validated(&good_token(), &cache) {
        JwtVerdict::KeysNeeded(url) => assert_eq!(url, CERTS),
        other => panic!("{}", reason(other)),
    }
    match authenticate_cf_jwt(&good_token(), &cache) {
        JwtStep::KeysNeeded(url) => assert_eq!(url, CERTS),
        other => panic!("{}", step_reason(other)),
    }
    assert_eq!(
        step_reason(authenticate_cf_jwt("not-a-token", &cache)),
        "Failed to decode JWT header: InvalidToken"
    );
}

#[test]
fn key_choice_on_given_headers() {
    let cache = full_cache();
    let header = |id: Option<&str>| TokenHeader {
        algorithm: Algorithm::HS256,
        key_id: id.map(|id| id.to_string()),
    };
    match choose_key(Ok(header(Some("k1"))), &cache) {
        KeyChoice::Key { algorithm, .. } => assert_eq!(algorithm, Algorithm::HS256),
        _ => panic!("no key"),
    }
    match choose_key(Ok(header(None)), &cache) {
        KeyChoice::Unusable(reason) => assert_eq!(reason, "JWT header missing 'kid' field"),
        _ => panic!("usable"),
    }
    match choose_key(Err("broken".to_string()), &cache) {
        KeyChoice::Unusable(reason) => assert_eq!(reason, "Failed to decode JWT header: broken"),
        _ => panic!("usable"),
    }
}

#[test]
fn verification_outcomes_lead_on() {
    let text: Result<String, DecodeError> = Ok("no JSON".to_string());
    assert!(matches!(conclude_authentication(&text), JwtStep::Authentic));
    let unread = Err(DecodeError::Json("JSON error: bad".to_string()));
    assert!(matches!(conclude_authentication(&unread), JwtStep::Authentic));
    assert_eq!(
        step_reason(conclude_authentication(&Err(DecodeError::Other(
            "InvalidSignature".to_string()
        )))),
        "JWT validation failed: InvalidSignature"
    );
    match conclude_validation(Ok(()), &text, read_claims()) {
        JwtVerdict::Valid(identity) => assert_eq!(identity.sub, "user-1"),
        other => panic!("{}", reason(other)),
    }
    assert_eq!(
        reason(conclude_validation(Err("ExpiredSignature".to_string()), &text, read_claims())),
        "JWT validation failed: ExpiredSignature"
    );
    assert_eq!(
        reason(conclude_validation(Ok(()), &Ok("{}".to_string()), read_claims())),
        MISREAD_CLAIMS
    );
}

#[test]
fn token_is_extracted_from_headers() {
    assert_eq!(CF_ACCESS_JWT_HEADER, "Cf-Access-Jwt-Assertion");
    assert_eq!(extract_cf_jwt(&HeaderMap::new()), None);
    let mut headers = headers_with("first");
    headers.append("Cf-Access-Jwt-Assertion", HeaderValue::from_static("second"));
    headers.append("authorization", HeaderValue::from_static("third"));
    assert_eq!(extract_cf_jwt(&headers), Some("first"));
    let mut headers = HeaderMap::new();
    headers.insert("cf-access-jwt-assertion", HeaderValue::from_bytes(b"t\xc3\xb6ken").unwrap());
    assert_eq!(extract_cf_jwt(&headers), None);
    headers.insert("cf-access-jwt-assertion", HeaderValue::from_static("a\tb ~"));
    assert_eq!(extract_cf_jwt(&headers), Some("a\tb ~"));
}

#[test]
fn without_configuration_or_token_requests_are_anonymous() {
    let anonymous = cf_access_middleware(&None, &headers_with("not-a-token"));
    assert!(matches!(anonymous, AccessStep::Proceed(None)));
    let config = Some(config(full_cache()));
    let anonymous = cf_access_middleware(&config, &HeaderMap::new());
    assert!(matches!(anonymous, AccessStep::Proceed(None)));
    let anonymous = cf_access_claims_read(&config, &HeaderMap::new(), Ok(read_claims()));
    assert!(matches!(anonymous, AccessStep::Proceed(None)));
    let anonymous = cf_access_claims_read(&None, &headers_with("t"), Ok(read_claims()));
    assert!(matches!(anonymous, AccessStep::Proceed(None)));
}

#[test]
fn unreadable_token_is_unauthorized() {
    let mut headers = HeaderMap::new();
    headers.insert("cf-access-jwt-assertion", HeaderValue::from_bytes(b"\xff").unwrap());
    let refused = (401, "Invalid authentication token: JWT header is not visible ASCII".to_string());
    assert_eq!(UNREADABLE_TOKEN, "JWT header is not visible ASCII");
    let mut configured = config(full_cache());
    let reply = JwksReply::Body(Ok(key_set()));
    assert_eq!(rejection(cf_access_keys_fetched(&mut configured, &headers, reply)), refused);
    let configured = Some(configured);
    assert_eq!(rejection(cf_access_middleware(&configured, &headers)), refused);
    assert_eq!(
        rejection(cf_access_claims_read(&configured, &headers, Ok(read_claims()))),
        refused
    );
    assert!(matches!(cf_access_middleware(&None, &headers), AccessStep::Proceed(None)));
}

#[test]
fn valid_token_attaches_identity() {
    let config = Some(config(full_cache()));
    let headers = headers_with(&good_token());
    let token = match cf_access_middleware(&config, &headers) {
        AccessStep::ReadClaims(token) => token,
        other => panic!("{:?}", rejection(other)),
    };
    assert_eq!(token, good_token());
    let mut validation = Validation::new(Algorithm::HS256);
    validation.validate_aud = false;
    let key = DecodingKey::from_secret(b"secret");
    let read = jsonwebtoken::decode::<serde_json::Value>(&token, &key, &validation).unwrap().claims;
    let claims = CfAccessClaims {
        email: read["email"].as_str().unwrap().to_string(),
        sub: read["sub"].as_str().unwrap().to_string(),
        identity_nonce: None,
        iat: read["iat"].as_u64().unwrap(),
        exp: read["exp"].as_u64().unwrap(),
    };
    match cf_access_claims_read(&config, &headers, Ok(claims)) {
        AccessStep::Proceed(Some(identity)) => {
            assert_eq!(identity.email, "user@example.com");
            assert_eq!(identity.sub, "user-1");
            assert_eq!(identity.identity_nonce, None);
            assert_eq!(identity.iat, 1000);
            assert_eq!(identity.exp, FAR_FUTURE);
        }
        other => panic!("{:?}", rejection(other)),
    }
}

#[test]
fn foreign_and_expired_tokens_attach_no_identity() {
    let config = Some(config(full_cache()));
    let body = |claims: serde_json::Value| {
        let headers = headers_with(&token_of(Some("k1"), "secret", &claims));
        assert!(matches!(cf_access_middleware(&config, &headers), AccessStep::ReadClaims(_)));
        rejection(cf_access_claims_read(&config, &headers, Ok(read_claims())))
    };
    let refused = |why: &str| {
        (401, format!("Invalid authentication token: JWT validation failed: {}", why))
    };
    assert_eq!(body(claims("else", ISSUER, FAR_FUTURE)), refused("InvalidAudience"));
    assert_eq!(body(claims(AUDIENCE, "https://else", FAR_FUTURE)), refused("InvalidIssuer"));
    assert_eq!(body(claims(AUDIENCE, ISSUER, 1000)), refused("ExpiredSignature"));
}

#[test]
fn identity_holds_what_the_claims_state() {
    let identity = identity_of(CfAccessClaims {
        email: "e".to_string(),
        sub: "s".to_string(),
        identity_nonce: Some("n".to_string()),
        iat: 1,
        exp: 2,
    });
    assert_eq!(identity.email, "e");
    assert_eq!(identity.sub, "s");
    assert_eq!(identity.identity_nonce, Some("n".to_string()));
    assert_eq!((identity.iat, identity.exp), (1, 2));
}

#[test]
fn invalid_token_is_unauthorized() {
    assert_eq!(UNAUTHORIZED, 401);
    let access = cf_access_middleware(&Some(config(full_cache())), &headers_with("not-a-token"));
    assert_eq!(
        rejection(access),
        (
            401,
            "Invalid authentication token: Failed to decode JWT header: InvalidToken".to_string()
        )
    );
    let unread = cf_access_claims_read(
        &Some(config(full_cache())),
        &headers_with(&good_token()),
        Err("JSON error: missing field `email` at line 1 column 2".to_string()),
    );
    assert_eq!(
        rejection(unread),
        (
            401,
            "Invalid authentication token: JWT validation failed: JSON error: missing field \
             `email` at line 1 column 2"
                .to_string()
        )
    );
    assert_eq!(rejection(refuse("why")), (401, "Invalid authentication token: why".to_string()));
    assert_eq!(
        rejection(access_after_authentication(JwtStep::Invalid("why".to_string()), "t")),
        (401, "Invalid authentication token: why".to_string())
    );
    assert_eq!(
        rejection(access_after_validation(JwtVerdict::Invalid("why".to_string()))),
        (401, "Invalid authentication token: why".to_string())
    );
}

#[test]
fn keys_are_fetched_once() {
    let headers = headers_with(&good_token());
    let mut config = config(JwksCache::new("myteam".to_string()));
    let first = Some(config);
    match cf_access_middleware(&first, &headers) {
        AccessStep::FetchKeys(url) => assert_eq!(url, CERTS),
        other => panic!("{:?}", rejection(other)),
    }
    config = first.unwrap();
    let failed = JwksReply::Refused("500 Internal Server Error".to_string());
    assert_eq!(
        rejection(cf_access_keys_fetched(&mut config, &headers, failed)),
        (
            401,
            "Invalid authentication token: JWKS fetch returned status: 500 Internal Server Error"
                .to_string()
        )
    );
    assert!(config.jwks_cache.get_jwks().is_none());
    let access = cf_access_keys_fetched(&mut config, &headers, JwksReply::Body(Ok(key_set())));
    assert!(matches!(access, AccessStep::ReadClaims(_)));
    let access = cf_access_middleware(&Some(config), &headers);
    assert!(matches!(access, AccessStep::ReadClaims(_)));
}

#[test]
fn unknown_key_is_refused_without_another_fetch() {
    let token = token_of(Some("k9"), "secret", &claims(AUDIENCE, ISSUER, FAR_FUTURE));
    let access = cf_access_middleware(&Some(config(full_cache())), &headers_with(&token));
    assert_eq!(
        rejection(access).1,
        "Invalid authentication token: No matching key found for kid: k9"
    );
}
