use session_auth::endpoints::{generate_jwt, validate_jwt, ReplyBody};
use session_auth::token::{TokenAuthority, TTL_SECONDS};

const NOW: u64 = 1_700_000_000;

fn authority() -> TokenAuthority {
    TokenAuthority::new(Some("test-signing-secret".to_owned()))
}

fn issued_token(auth: &TokenAuthority) -> String {
    let reply = generate_jwt(auth, "user-123", NOW);
    assert_eq!(reply.status, 200);
    match reply.body {
        ReplyBody::Token(t) => t,
        _ => panic!("a 200 from the issuing endpoint carries the token"),
    }
}

#[test]
fn generate_returns_token_with_status_200() {
    let auth = authority();
    let token = issued_token(&auth);
    assert!(!token.is_empty());
}

#[test]
fn generate_without_secret_returns_500() {
    let auth = TokenAuthority::new(None);
    let reply = generate_jwt(&auth, "user-123", NOW);
    assert_eq!(reply.status, 500);
    let text = reply.body.plain_text().expect("a configuration error has fixed text");
    assert_eq!(text, "ENCRYPTION_KEY not set");
}

#[test]
fn validate_accepts_fresh_token_with_status_200() {
    let auth = authority();
    let token = issued_token(&auth);
    let reply = validate_jwt(&auth, &token, NOW);
    assert_eq!(reply.status, 200);
    match reply.body {
        ReplyBody::ValidClaims(claims) => {
            assert_eq!(claims.sub, "user-123");
            assert_eq!(claims.iat, NOW);
            assert_eq!(claims.exp, NOW + TTL_SECONDS);
        }
        _ => panic!("a 200 for a valid token carries the claims"),
    }
}

#[test]
fn validate_trims_surrounding_whitespace() {
    let auth = authority();
    let token = issued_token(&auth);
    let padded = format!("  {}\n", token);
    let reply = validate_jwt(&auth, &padded, NOW);
    assert_eq!(reply.status, 200);
    assert!(matches!(reply.body, ReplyBody::ValidClaims(_)));
}

#[test]
fn validate_expired_token_returns_401() {
    let auth = authority();
    let token = issued_token(&auth);
    let reply = validate_jwt(&auth, &token, NOW + 13 * 60 * 60);
    assert_eq!(reply.status, 401);
    let text = reply.body.plain_text().expect("an expiry has fixed text");
    assert_eq!(text, "Token has expired");
}

#[test]
fn validate_garbage_returns_200_with_sentinel() {
    let auth = authority();
    let reply = validate_jwt(&auth, "definitely not a jwt", NOW);
    // The preserved convention: most invalid tokens are answered with 200
    // and a sentinel string, not with an error status.
    assert_eq!(reply.status, 200);
    let text = reply.body.plain_text().expect("the sentinel is fixed text");
    assert_eq!(text, "jwt=invalid");
}

#[test]
fn validate_tampered_token_returns_sentinel_not_401() {
    let auth = authority();
    let token = issued_token(&auth);
    let dot = token.rfind('.').expect("a token has a signature portion");
    let mut bytes = token.into_bytes();
    let i = dot + 1;
    bytes[i] = if bytes[i] == b'Q' { b'g' } else { b'Q' };
    let tampered = String::from_utf8(bytes).expect("still ASCII");
    let reply = validate_jwt(&auth, &tampered, NOW);
    assert_eq!(reply.status, 200);
    assert!(matches!(reply.body, ReplyBody::JwtInvalid));
}

#[test]
fn validate_without_secret_returns_500() {
    let auth = TokenAuthority::new(None);
    let reply = validate_jwt(&auth, "anything", NOW);
    assert_eq!(reply.status, 500);
    let text = reply.body.plain_text().expect("a configuration error has fixed text");
    assert_eq!(text, "ENCRYPTION_KEY not set");
}
