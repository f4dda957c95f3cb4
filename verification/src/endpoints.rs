//! The decisions behind the two token endpoints: which status code and which
//! body each request gets. The HTTP plumbing itself — query parsing,
//! serialization, the server — stays outside; these functions take plain
//! values and return a structured reply that the edge renders.

use vstd::prelude::*;

use crate::token::{AuthError, Claims, TokenAuthority, TTL_SECONDS};
use crate::token::{issued_token, trim_of, trim_str, validate_spec};

verus! {

/// A reply as the endpoints decide it: a status code and a structured body.
pub struct HttpReply {
    /// The HTTP status code.
    pub status: u16,
    /// The body, still structured; the HTTP edge renders it.
    pub body: ReplyBody,
}

/// Every body the two endpoints can answer with.
pub enum ReplyBody {
    /// The issued token, sent with status 200.
    Token(String),
    /// The verified claims, sent with status 200 as
    /// `{"status": "valid", "claims": ...}`.
    ValidClaims(Claims),
    /// Status 401: the token's signature verifies but its expiry has passed.
    TokenExpired,
    /// The deliberate sentinel for every other invalid token, sent — for
    /// compatibility — with status 200, not an error status.
    JwtInvalid,
    /// Status 500: the signing secret is not configured.
    SecretMissing,
    /// Status 500: the signing call itself failed. Issuing is proved never
    /// to take this arm; the body stays as its defensive rendering.
    SigningFailed,
}

impl ReplyBody {
    /// The wire text of the plain-string bodies. The token and claims
    /// bodies are rendered by the serializer at the HTTP edge, so they have
    /// no fixed text here.
    pub fn plain_text(&self) -> (r: Option<String>)
        ensures
            self matches ReplyBody::TokenExpired ==> (r matches Some(s) && s@
                == "Token has expired"@),
            self matches ReplyBody::JwtInvalid ==> (r matches Some(s) && s@ == "jwt=invalid"@),
            self matches ReplyBody::SecretMissing ==> (r matches Some(s) && s@
                == "ENCRYPTION_KEY not set"@),
            self matches ReplyBody::SigningFailed ==> (r matches Some(s) && s@
                == "Failed to generate token"@),
            self matches ReplyBody::Token(_) ==> r is None,
            self matches ReplyBody::ValidClaims(_) ==> r is None,
    {
        match self {
            ReplyBody::TokenExpired => Some("Token has expired".to_owned()),
            ReplyBody::JwtInvalid => Some("jwt=invalid".to_owned()),
            ReplyBody::SecretMissing => Some("ENCRYPTION_KEY not set".to_owned()),
            ReplyBody::SigningFailed => Some("Failed to generate token".to_owned()),
            ReplyBody::Token(_) => None,
            ReplyBody::ValidClaims(_) => None,
        }
    }
}

/// The token-issuing endpoint's decision for subject `id` at time `now`:
/// 200 with the issued token exactly when a secret is configured — issuing
/// cannot otherwise fail — and 500 with the configuration body when none is.
/// The signing-failure body renders the defensive arm that issuing is
/// proved never to take.
pub fn generate_jwt(authority: &TokenAuthority, id: &str, now: u64) -> (r: HttpReply)
    requires
        now + TTL_SECONDS <= u64::MAX,
    ensures
        authority.secret_view() is Some <==> r.status == 200,
        authority.secret_view() is None <==> (r.status == 500 && r.body matches
            ReplyBody::SecretMissing),
        r.status == 200 ==> (r.body matches ReplyBody::Token(t) && issued_token(
            authority.secret_view(),
            id@,
            now,
            t@,
        )),
{
    match authority.issue(id, now) {
        Ok(token) => HttpReply { status: 200, body: ReplyBody::Token(token) },
        Err(AuthError::Configuration) => HttpReply {
            status: 500,
            body: ReplyBody::SecretMissing,
        },
        Err(_) => HttpReply { status: 500, body: ReplyBody::SigningFailed },
    }
}

/// The token-checking endpoint's decision for the submitted `token` at time
/// `now`. The submitted string is trimmed first, as the wire protocol does.
/// Then, exactly as [`validate_spec`] says of the trimmed token: 200 with
/// the claims when it verifies and is not yet expired; 401 when it verifies
/// but has expired; 500 when no secret is configured; and — deliberately —
/// 200 with the sentinel body for every other invalid token.
pub fn validate_jwt(authority: &TokenAuthority, token: &str, now: u64) -> (r: HttpReply)
    ensures
        ({
            let verdict = validate_spec(authority.secret_view(), trim_of(token@), now);
            match verdict {
                Ok(c) => r.status == 200 && (r.body matches ReplyBody::ValidClaims(cl) && cl@
                    == c),
                Err(e) => match e {
                    AuthError::Configuration => r.status == 500 && r.body matches
                        ReplyBody::SecretMissing,
                    AuthError::Expired => r.status == 401 && r.body matches
                        ReplyBody::TokenExpired,
                    AuthError::Invalid => r.status == 200 && r.body matches ReplyBody::JwtInvalid,
                    AuthError::Signing => false,
                },
            }
        }),
{
    let trimmed = trim_str(token);
    match authority.validate(trimmed.as_str(), now) {
        Ok(claims) => HttpReply { status: 200, body: ReplyBody::ValidClaims(claims) },
        Err(AuthError::Configuration) => HttpReply {
            status: 500,
            body: ReplyBody::SecretMissing,
        },
        Err(AuthError::Expired) => HttpReply { status: 401, body: ReplyBody::TokenExpired },
        Err(_) => HttpReply { status: 200, body: ReplyBody::JwtInvalid },
    }
}

} // verus!
