//! The token authority: stateless issuance and verification of signed,
//! time-limited session tokens.
//!
//! A token is an opaque signed string. What it carries — subject, issuance
//! time, expiry — is named at the specification level by [`parse_of`], the
//! (uninterpreted) result of decoding a string under a secret; issuance and
//! validation are specified exactly over that name.

use vstd::prelude::*;

verus! {

/// Seconds a freshly issued token stays valid: twelve hours.
pub const TTL_SECONDS: u64 = 43200;

/// Mathematical image of [`Claims`]: the subject as a character sequence and
/// the two timestamps, in whole seconds since the epoch.
pub ghost struct ClaimsView {
    pub sub: Seq<char>,
    pub iat: u64,
    pub exp: u64,
}

/// The structured data carried inside a token: who it was issued for, when,
/// and when it stops being acceptable.
#[derive(Clone, Debug)]
pub struct Claims {
    /// Identifier of the principal the token was issued for.
    pub sub: String,
    /// Seconds since the epoch at which the token was issued.
    pub iat: u64,
    /// Seconds since the epoch at which the token must be rejected.
    pub exp: u64,
}

impl View for Claims {
    type V = ClaimsView;

    open spec fn view(&self) -> ClaimsView {
        ClaimsView { sub: self.sub@, iat: self.iat, exp: self.exp }
    }
}

impl Claims {
    /// Claims for a token issued to `user_id` at time `now`: issued now,
    /// expiring one time-to-live later.
    pub fn new(user_id: &str, now: u64) -> (c: Claims)
        requires
            now + TTL_SECONDS <= u64::MAX,
        ensures
            c@ == (ClaimsView { sub: user_id@, iat: now, exp: (now + TTL_SECONDS) as u64 }),
    {
        Claims { sub: user_id.to_owned(), iat: now, exp: now + TTL_SECONDS }
    }
}

/// Every way issuing or validating a token can fail.
#[derive(Clone, Copy, Debug, PartialEq, Eq, Structural)]
pub enum AuthError {
    /// The signing secret is not configured.
    Configuration,
    /// The signing call itself reported failure. For the configured
    /// algorithm that call is relied on never to fail, so issuing is proved
    /// never to return this; it remains as the defensive classification.
    Signing,
    /// The signature verifies but the expiry has passed.
    Expired,
    /// The signature does not verify or the token is malformed; deliberately
    /// one indistinguishable category.
    Invalid,
}

/// The claims that decoding `token` under `secret` yields, if the token is
/// well formed and its signature verifies; `None` otherwise. Left
/// uninterpreted: it stands for what the HMAC-SHA256 verification of the
/// outside crate computes, which depends on the two arguments alone.
pub uninterp spec fn parse_of(token: Seq<char>, secret: Seq<char>) -> Option<ClaimsView>;

/// The token string that signing the given claims under `secret` yields.
/// Uninterpreted for the same reason as [`parse_of`]: signing is
/// deterministic in the claims and the secret, and nothing shorter than the
/// algorithm itself would say which string comes out.
pub uninterp spec fn token_of(sub: Seq<char>, iat: u64, exp: u64, secret: Seq<char>) -> Seq<char>;

/// The whitespace-trimmed form of a string. Left uninterpreted: it stands
/// for what `str::trim` returns, a function of the string alone.
pub uninterp spec fn trim_of(s: Seq<char>) -> Seq<char>;

/// Relies on `str::trim`: the input with leading and trailing whitespace
/// removed, depending on the characters alone.
#[verifier::external_body]
pub(crate) fn trim_str(s: &str) -> (r: String)
    ensures
        r@ == trim_of(s@),
{
    s.trim().to_owned()
}

/// Relies on `jsonwebtoken::encode` with `Header::default()` (HMAC-SHA256):
/// the token it returns is a deterministic function of the claims and the
/// secret, and decoding it under the same secret — see [`parse_of`] and the
/// wrapper around `jsonwebtoken::decode` below — yields exactly the claims
/// that were signed. For this algorithm the signing call cannot fail, and
/// neither can serializing the fixed header or these plain claims, so the
/// call always returns a token. The token is base64url segments joined by
/// dots — it holds no whitespace, so trimming it changes nothing.
#[verifier::external_body]
fn encode_token(sub: &str, iat: u64, exp: u64, secret: &str) -> (r: Option<String>)
    ensures
        r is Some,
        r matches Some(t) ==> t@ == token_of(sub@, iat, exp, secret@),
        r matches Some(t) ==> parse_of(t@, secret@) == Some(ClaimsView { sub: sub@, iat, exp }),
        r matches Some(t) ==> trim_of(t@) == t@,
{
    let mut claims = serde_json::Map::new();
    claims.insert("sub".to_owned(), serde_json::Value::from(sub));
    claims.insert("iat".to_owned(), serde_json::Value::from(iat));
    claims.insert("exp".to_owned(), serde_json::Value::from(exp));
    jsonwebtoken::encode(
        &jsonwebtoken::Header::default(),
        &serde_json::Value::Object(claims),
        &jsonwebtoken::EncodingKey::from_secret(secret.as_bytes()),
    )
    .ok()
}

/// Relies on `jsonwebtoken::decode` restricted to HMAC-SHA256, with the
/// clock-dependent expiry check switched off so that the result is a
/// function of the token and the secret alone: it returns the embedded
/// claims exactly when the token is structurally well formed and its
/// signature verifies under the secret, and an error otherwise.
#[verifier::external_body]
fn decode_token(token: &str, secret: &str) -> (r: Option<Claims>)
    ensures
        r matches Some(c) ==> parse_of(token@, secret@) == Some(c@),
        r is None ==> parse_of(token@, secret@) is None,
{
    let mut validation = jsonwebtoken::Validation::new(jsonwebtoken::Algorithm::HS256);
    validation.validate_exp = false;
    validation.validate_aud = false;
    validation.required_spec_claims = std::collections::HashSet::new();
    let key = jsonwebtoken::DecodingKey::from_secret(secret.as_bytes());
    let data = jsonwebtoken::decode::<serde_json::Value>(token, &key, &validation).ok()?;
    let sub = data.claims.get("sub")?.as_str()?.to_owned();
    let iat = data.claims.get("iat")?.as_u64()?;
    let exp = data.claims.get("exp")?.as_u64()?;
    Some(Claims { sub, iat, exp })
}

/// Relies on `chrono::Utc::now`: the current clock reading, in whole seconds
/// since the epoch. Nothing is promised of the value — it depends on the
/// machine's clock, not on any argument. `Utc::now` itself panics on a
/// machine whose clock reads before the epoch; that environment is relied
/// on not to occur, as it was where this call originally stood.
#[verifier::external_body]
fn now_timestamp() -> i64 {
    chrono::Utc::now().timestamp()
}

/// What validating `token` at time `now` must return, given the configured
/// secret: a missing secret is a configuration error; an unparseable token is
/// invalid; a parsed token is expired at or after its expiry and otherwise
/// yields its claims.
pub open spec fn validate_spec(
    secret: Option<Seq<char>>,
    token: Seq<char>,
    now: u64,
) -> Result<ClaimsView, AuthError> {
    match secret {
        None => Err(AuthError::Configuration),
        Some(sec) => match parse_of(token, sec) {
            None => Err(AuthError::Invalid),
            Some(c) => if now >= c.exp {
                Err(AuthError::Expired)
            } else {
                Ok(c)
            },
        },
    }
}

/// `token` is what issuing for `sub` at time `now` under `secret` produces:
/// the signing function's output, carrying claims that expire one
/// time-to-live after `now`, and free of surrounding whitespace — so the
/// wire protocol's trimming leaves it untouched.
pub open spec fn issued_token(
    secret: Option<Seq<char>>,
    sub: Seq<char>,
    now: u64,
    token: Seq<char>,
) -> bool {
    &&& secret is Some
    &&& token == token_of(sub, now, (now + TTL_SECONDS) as u64, secret->0)
    &&& parse_of(token, secret->0) == Some(
        ClaimsView { sub, iat: now, exp: (now + TTL_SECONDS) as u64 },
    )
    &&& trim_of(token) == token
}

/// Stateless issuer and verifier of session tokens. Holds only the signing
/// secret — or its absence, since configuration is checked at call time.
pub struct TokenAuthority {
    secret: Option<String>,
}

impl TokenAuthority {
    /// The configured secret, or `None` while configuration is absent.
    pub closed spec fn secret_view(&self) -> Option<Seq<char>> {
        match self.secret {
            Some(s) => Some(s@),
            None => None,
        }
    }

    /// An authority for the given secret; `None` models absent configuration.
    pub fn new(secret: Option<String>) -> (a: TokenAuthority)
        ensures
            a.secret_view() == (match secret {
                Some(s) => Some::<Seq<char>>(s@),
                None => None::<Seq<char>>,
            }),
    {
        TokenAuthority { secret }
    }

    /// Whether a signing secret is configured.
    pub fn is_configured(&self) -> (r: bool)
        ensures
            r == (self.secret_view() is Some),
    {
        self.secret.is_some()
    }

    /// Sign claims for `subject` as of time `now`: issued now, expiring one
    /// time-to-live later. Succeeds exactly when a secret is configured —
    /// for this algorithm the signing call cannot fail — and fails with
    /// `Configuration` otherwise. The `Signing` arm only classifies a
    /// failure the signing call is proved never to report.
    pub fn issue(&self, subject: &str, now: u64) -> (r: Result<String, AuthError>)
        requires
            now + TTL_SECONDS <= u64::MAX,
        ensures
            self.secret_view() is Some <==> r is Ok,
            r matches Ok(t) ==> issued_token(self.secret_view(), subject@, now, t@),
            r matches Err(e) ==> e == AuthError::Configuration,
    {
        match &self.secret {
            None => Err(AuthError::Configuration),
            Some(sec) => {
                let claims = Claims::new(subject, now);
                match encode_token(claims.sub.as_str(), claims.iat, claims.exp, sec.as_str()) {
                    Some(token) => Ok(token),
                    None => Err(AuthError::Signing),
                }
            },
        }
    }

    /// Decide `token` as of time `now`, exactly as [`validate_spec`] says:
    /// `Configuration` without a secret, `Invalid` when the token does not
    /// parse under the secret, `Expired` at or after the embedded expiry, and
    /// the embedded claims strictly before it.
    pub fn validate(&self, token: &str, now: u64) -> (r: Result<Claims, AuthError>)
        ensures
            r matches Ok(c) ==> validate_spec(self.secret_view(), token@, now) == Ok::<
                ClaimsView,
                AuthError,
            >(c@),
            r matches Err(e) ==> validate_spec(self.secret_view(), token@, now) == Err::<
                ClaimsView,
                AuthError,
            >(e),
    {
        match &self.secret {
            None => Err(AuthError::Configuration),
            Some(sec) => match decode_token(token, sec.as_str()) {
                None => Err(AuthError::Invalid),
                Some(claims) => if now >= claims.exp {
                    Err(AuthError::Expired)
                } else {
                    Ok(claims)
                },
            },
        }
    }

    /// [`Self::issue`] at the machine clock's current reading. A clock before
    /// the epoch is read as the epoch itself.
    pub fn issue_now(&self, subject: &str) -> (r: Result<String, AuthError>)
        ensures
            self.secret_view() is Some <==> r is Ok,
            r matches Ok(t) ==> (exists|now: u64| issued_token(self.secret_view(), subject@, now, t@)),
            r matches Err(e) ==> e == AuthError::Configuration,
    {
        let ts = now_timestamp();
        let now: u64 = if ts < 0 {
            0
        } else {
            ts as u64
        };
        let r = self.issue(subject, now);
        proof {
            if let Ok(t) = &r {
                assert(issued_token(self.secret_view(), subject@, now, t@));
            }
        }
        r
    }

    /// [`Self::validate`] at the machine clock's current reading. The
    /// expiry verdict depends on that reading, so only the clock-independent
    /// part is stated: what each outcome says about how the token parses.
    pub fn validate_now(&self, token: &str) -> (r: Result<Claims, AuthError>)
        ensures
            (r matches Err(e) && e == AuthError::Configuration) <==> self.secret_view() is None,
            r matches Ok(c) ==> (self.secret_view() matches Some(sec) && parse_of(token@, sec)
                == Some(c@)),
            r matches Err(e) && e == AuthError::Invalid ==> (self.secret_view() matches Some(sec)
                && parse_of(token@, sec) is None),
            r matches Err(e) && e == AuthError::Expired ==> (self.secret_view() matches Some(sec)
                && parse_of(token@, sec) is Some),
            !(r matches Err(e) && e == AuthError::Signing),
    {
        let ts = now_timestamp();
        let now: u64 = if ts < 0 {
            0
        } else {
            ts as u64
        };
        self.validate(token, now)
    }
}

/// Law: a token issued for `sub` at time `now` validates immediately — at
/// that same `now` — and the claims carry exactly `sub`, issuance `now`, and
/// expiry one time-to-live later. The same holds through the wire protocol's
/// trimming, since an issued token carries no surrounding whitespace.
pub proof fn lemma_issue_then_validate(secret: Seq<char>, sub: Seq<char>, token: Seq<char>, now: u64)
    requires
        now + TTL_SECONDS <= u64::MAX,
        issued_token(Some(secret), sub, now, token),
    ensures
        validate_spec(Some(secret), token, now) == Ok::<ClaimsView, AuthError>(
            ClaimsView { sub, iat: now, exp: (now + TTL_SECONDS) as u64 },
        ),
        validate_spec(Some(secret), trim_of(token), now) == validate_spec(
            Some(secret),
            token,
            now,
        ),
{
}

/// Law: for a token whose signature verifies, validation strictly before the
/// embedded expiry yields its claims, and validation at or after the expiry
/// yields `Expired`.
pub proof fn lemma_expiry_boundary(secret: Seq<char>, token: Seq<char>, c: ClaimsView, now: u64)
    requires
        parse_of(token, secret) == Some(c),
    ensures
        now < c.exp ==> validate_spec(Some(secret), token, now) == Ok::<ClaimsView, AuthError>(c),
        now >= c.exp ==> validate_spec(Some(secret), token, now) == Err::<ClaimsView, AuthError>(
            AuthError::Expired,
        ),
{
}

/// Law: a token that does not parse under the secret — malformed, or its
/// signature does not verify — is rejected as `Invalid`, never as `Expired`,
/// whatever the clock says.
pub proof fn lemma_unparseable_is_invalid(secret: Seq<char>, token: Seq<char>, now: u64)
    requires
        parse_of(token, secret) is None,
    ensures
        validate_spec(Some(secret), token, now) == Err::<ClaimsView, AuthError>(AuthError::Invalid),
{
}

} // verus!
