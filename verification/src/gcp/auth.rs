//! Bearer tokens for Google Cloud Platform services.
//!
//! A [`TokenManager`] keeps the last access token together with the instant up
//! to which it is reused. Fetching a new one needs an HTTP exchange, which the
//! caller performs: [`TokenManager::token_at`] says whether the cached token
//! still serves or which request has to be sent, and [`TokenManager::accept`]
//! stores the token that came back.

use vstd::prelude::*;
use vstd::std_specs::cmp::PartialEqSpecImpl;
use vstd::string::*;

verus! {

/// The endpoint that exchanges a signed assertion for an access token.
pub const AUTH_ENDPOINT: &'static str = "https://oauth2.googleapis.com/token";

/// The content type of the token request's body.
pub const FORM_CONTENT_TYPE: &'static str = "application/x-www-form-urlencoded";

/// What precedes the signed assertion in the token request's body.
pub const GRANT_PREFIX: &'static str =
    "grant_type=urn:ietf:params:oauth:grant-type:jwt-bearer&assertion=";

/// For how many seconds a token is reused after it was requested, and for
/// how long the signed claims ask: 45 minutes, so that a token is replaced
/// well before the hour for which such tokens are issued has passed.
pub const REUSE_SECONDS: i64 = 2700;

/// Represents application credentials for accessing Google Cloud Platform services.
#[derive(Debug, Clone)]
pub struct ApplicationCredentials {
    pub cred_type: String,
    pub project_id: String,
    pub private_key_id: String,
    pub private_key: String,
    pub client_email: String,
    pub client_id: String,
    pub auth_uri: String,
    pub token_uri: String,
    pub auth_provider_x509_cert_url: String,
    pub client_x509_cert_url: String,
}

impl PartialEq for ApplicationCredentials {
    fn eq(&self, other: &Self) -> (r: bool) {
        self.cred_type == other.cred_type && self.project_id == other.project_id
            && self.private_key_id == other.private_key_id && self.private_key == other.private_key
            && self.client_email == other.client_email && self.client_id == other.client_id
            && self.auth_uri == other.auth_uri && self.token_uri == other.token_uri
            && self.auth_provider_x509_cert_url == other.auth_provider_x509_cert_url
            && self.client_x509_cert_url == other.client_x509_cert_url
    }
}

impl PartialEqSpecImpl for ApplicationCredentials {
    open spec fn obeys_eq_spec() -> bool {
        true
    }

    open spec fn eq_spec(&self, other: &Self) -> bool {
        self.cred_type@ == other.cred_type@ && self.project_id@ == other.project_id@
            && self.private_key_id@ == other.private_key_id@ && self.private_key@
            == other.private_key@ && self.client_email@ == other.client_email@ && self.client_id@
            == other.client_id@ && self.auth_uri@ == other.auth_uri@ && self.token_uri@
            == other.token_uri@ && self.auth_provider_x509_cert_url@
            == other.auth_provider_x509_cert_url@ && self.client_x509_cert_url@
            == other.client_x509_cert_url@
    }
}

/// An instant as whole seconds since the Unix epoch and the nanoseconds past
/// that second.
#[derive(Debug, Clone, Copy, PartialEq, Eq, Structural)]
pub struct Instant {
    pub secs: i64,
    pub nanos: u32,
}

impl Instant {
    /// Whether `self` is `other` or later.
    pub open spec fn spec_at_or_after(self, other: Instant) -> bool {
        self.secs > other.secs || (self.secs == other.secs && self.nanos >= other.nanos)
    }

    /// Whether `self` is `other` or later.
    pub fn at_or_after(&self, other: &Instant) -> (r: bool)
        ensures
            r == self.spec_at_or_after(*other),
    {
        self.secs > other.secs || (self.secs == other.secs && self.nanos >= other.nanos)
    }

    /// The instant `seconds` later, unless its seconds leave the range of `i64`.
    pub fn later(&self, seconds: i64) -> (r: Option<Instant>)
        ensures
            r == (if i64::MIN <= self.secs + seconds <= i64::MAX {
                Some(Instant { secs: (self.secs + seconds) as i64, nanos: self.nanos })
            } else {
                None
            }),
    {
        match self.secs.checked_add(seconds) {
            Some(secs) => Some(Instant { secs, nanos: self.nanos }),
            None => None,
        }
    }
}

/// The value of an access token.
#[derive(Debug, Clone)]
pub enum TokenValue {
    Bearer(String),
}

impl TokenValue {
    /// The characters of the authorization header's value.
    pub open spec fn header(self) -> Seq<char> {
        match self {
            TokenValue::Bearer(token) => "Bearer "@ + token@,
        }
    }

    /// The token itself.
    pub open spec fn token(self) -> Seq<char> {
        match self {
            TokenValue::Bearer(token) => token@,
        }
    }

    /// The value as it stands in an authorization header: the word `Bearer`,
    /// a space and the token.
    pub fn to_string(&self) -> (r: String)
        ensures
            r@ == self.header(),
    {
        match self {
            TokenValue::Bearer(token) => {
                let mut out = String::from_str("Bearer ");
                out.append(token.as_str());
                out
            },
        }
    }
}

impl PartialEq for TokenValue {
    fn eq(&self, other: &Self) -> (r: bool) {
        match (self, other) {
            (TokenValue::Bearer(a), TokenValue::Bearer(b)) => *a == *b,
        }
    }
}

impl PartialEqSpecImpl for TokenValue {
    open spec fn obeys_eq_spec() -> bool {
        true
    }

    open spec fn eq_spec(&self, other: &Self) -> bool {
        self.token() == other.token()
    }
}

/// An access token and the instant up to which it is reused.
#[derive(Debug, Clone)]
pub struct Token {
    pub value: TokenValue,
    pub expiry: Instant,
}

impl PartialEq for Token {
    fn eq(&self, other: &Self) -> (r: bool) {
        self.value == other.value && self.expiry == other.expiry
    }
}

impl PartialEqSpecImpl for Token {
    open spec fn obeys_eq_spec() -> bool {
        true
    }

    open spec fn eq_spec(&self, other: &Self) -> bool {
        self.value.token() == other.value.token() && self.expiry == other.expiry
    }
}

/// Why no token request could be prepared.
#[derive(Debug, Clone, Copy, PartialEq, Eq, Structural)]
pub enum TokenError {
    /// The private key of the credentials could not be used to sign the claims.
    Signing,
    /// The instant at which a new token would expire cannot be represented.
    ClockOutOfRange,
}

/// The claims that are signed to ask for an access token.
#[derive(Debug, Clone)]
pub struct Claims {
    pub iss: String,
    pub scope: String,
    pub aud: String,
    pub exp: i64,
    pub iat: i64,
}

/// The request that fetches a new access token.
#[derive(Debug, Clone)]
pub struct TokenRequest {
    /// Always `POST`.
    pub method: String,
    pub uri: String,
    pub content_type: String,
    pub body: String,
    /// Up to when the token that comes back is to be reused.
    pub expiry: Instant,
}

/// How a caller gets its bearer token.
#[derive(Debug, Clone)]
pub enum TokenStep {
    /// The cached token still serves: the authorization header's value.
    Ready(String),
    /// A new token has to be fetched with this request and handed to
    /// [`TokenManager::accept`].
    Fetch(TokenRequest),
}

/// The RS256-signed compact JWT over the five claims, as `jsonwebtoken`
/// produces it with the given PEM-encoded RSA private key; `None` where the
/// key is refused or signing fails.
pub uninterp spec fn rs256_assertion(
    iss: Seq<char>,
    scope: Seq<char>,
    aud: Seq<char>,
    exp: int,
    iat: int,
    private_key: Seq<char>,
) -> Option<Seq<char>>;

/// The characters of a string that may be absent.
pub open spec fn chars_of(text: Option<String>) -> Option<Seq<char>> {
    match text {
        Some(t) => Some(t@),
        None => None,
    }
}

/// Signs the claims with `jsonwebtoken::encode` under an RS256 header, the key
/// read by `EncodingKey::from_rsa_pem`. The contract only names the result: the
/// same claims and key give the same token.
#[verifier::external_body]
fn sign_claims(claims: &Claims, private_key: &str) -> (r: Option<String>)
    ensures
        chars_of(r) == rs256_assertion(
            claims.iss@,
            claims.scope@,
            claims.aud@,
            claims.exp as int,
            claims.iat as int,
            private_key@,
        ),
{
    let mut body = serde_json::Map::new();
    body.insert("iss".to_string(), serde_json::Value::from(claims.iss.as_str()));
    body.insert("scope".to_string(), serde_json::Value::from(claims.scope.as_str()));
    body.insert("aud".to_string(), serde_json::Value::from(claims.aud.as_str()));
    body.insert("exp".to_string(), serde_json::Value::from(claims.exp));
    body.insert("iat".to_string(), serde_json::Value::from(claims.iat));
    let key = jsonwebtoken::EncodingKey::from_rsa_pem(private_key.as_bytes()).ok()?;
    let header = jsonwebtoken::Header::new(jsonwebtoken::Algorithm::RS256);
    jsonwebtoken::encode(&header, &serde_json::Value::Object(body), &key).ok()
}

/// Reads the clock with `chrono::Utc::now`. The instant differs from call to
/// call; it is built from a `Duration` since the epoch, whose sub-second part
/// stays under a second.
#[verifier::external_body]
fn utc_now() -> (r: Instant)
    ensures
        r.nanos < 1_000_000_000,
{
    let now = chrono::Utc::now();
    Instant { secs: now.timestamp(), nanos: now.timestamp_subsec_nanos() }
}

/// The scopes joined by single spaces.
pub open spec fn joined_scopes(scopes: Seq<&str>) -> Seq<char>
    decreases scopes.len(),
{
    if scopes.len() == 0 {
        Seq::empty()
    } else if scopes.len() == 1 {
        scopes[0]@
    } else {
        joined_scopes(scopes.drop_last()) + " "@ + scopes.last()@
    }
}

/// Whether `request` is the form post that exchanges `assertion` for a token
/// to be reused up to `expiry`.
pub open spec fn is_token_request(request: TokenRequest, assertion: Seq<char>, expiry: Instant) -> bool {
    &&& request.method@ == "POST"@
    &&& request.uri@ == AUTH_ENDPOINT@
    &&& request.content_type@ == FORM_CONTENT_TYPE@
    &&& request.body@ == GRANT_PREFIX@ + assertion
    &&& request.expiry == expiry
}

/// The request that exchanges a signed assertion for an access token.
pub fn token_request(assertion: &str, expiry: Instant) -> (r: TokenRequest)
    ensures
        is_token_request(r, assertion@, expiry),
{
    let mut body = String::from_str(GRANT_PREFIX);
    body.append(assertion);
    TokenRequest {
        method: String::from_str("POST"),
        uri: String::from_str(AUTH_ENDPOINT),
        content_type: String::from_str(FORM_CONTENT_TYPE),
        body,
        expiry,
    }
}

/// Keeps the credentials, the scopes asked for and the last access token.
#[derive(Debug, Clone)]
pub struct TokenManager {
    scopes: String,
    creds: ApplicationCredentials,
    current_token: Option<Token>,
}

impl TokenManager {
    /// The scopes that every token is asked for, joined by spaces.
    pub closed spec fn scopes(self) -> Seq<char> {
        self.scopes@
    }

    /// The credentials that sign the requests.
    pub closed spec fn creds(self) -> ApplicationCredentials {
        self.creds
    }

    /// The token kept from the last exchange.
    pub closed spec fn current(self) -> Option<Token> {
        self.current_token
    }

    /// Whether the kept token is reused at `now`: there is one, and `now` is
    /// not past its expiry.
    pub open spec fn fresh(self, now: Instant) -> bool {
        self.current() matches Some(token) && token.expiry.spec_at_or_after(now)
    }

    /// The claims signed at `now`: issued by the credentials' client e-mail for
    /// the manager's scopes, addressed to the token endpoint, valid from `now`
    /// for `REUSE_SECONDS`.
    pub open spec fn claims_at(self, now: Instant) -> (Seq<char>, Seq<char>, Seq<char>, int, int) {
        (
            self.creds().client_email@,
            self.scopes(),
            AUTH_ENDPOINT@,
            now.secs + REUSE_SECONDS,
            now.secs as int,
        )
    }

    /// The signed assertion sent at `now`, where the key can sign it.
    pub open spec fn assertion_at(self, now: Instant) -> Option<Seq<char>> {
        rs256_assertion(
            self.creds().client_email@,
            self.scopes(),
            AUTH_ENDPOINT@,
            now.secs + REUSE_SECONDS,
            now.secs as int,
            self.creds().private_key@,
        )
    }

    /// A manager for the given credentials and scopes, with no token yet.
    pub fn new(creds: ApplicationCredentials, scopes: &[&str]) -> (r: TokenManager)
        ensures
            r.creds() == creds,
            r.scopes() == joined_scopes(scopes@),
            r.current().is_none(),
    {
        let mut joined = String::new();
        let mut i: usize = 0;
        while i < scopes.len()
            invariant
                i <= scopes.len(),
                joined@ == joined_scopes(scopes@.take(i as int)),
            decreases scopes.len() - i,
        {
            if i > 0 {
                joined.append(" ");
            }
            joined.append(scopes[i]);
            proof {
                let before = scopes@.take(i as int);
                let after = scopes@.take(i + 1);
                assert(after.drop_last() == before);
                assert(after.last() == scopes@[i as int]);
                if i == 0 {
                    assert(joined_scopes(before) == Seq::<char>::empty());
                    assert(Seq::<char>::empty() + scopes@[0]@ == scopes@[0]@);
                }
            }
            i = i + 1;
        }
        proof {
            assert(scopes@.take(scopes@.len() as int) == scopes@);
        }
        TokenManager { scopes: joined, creds, current_token: None }
    }

    /// The authorization header's value from the kept token, where that token
    /// is still reused at `now`.
    pub fn cached(&self, now: Instant) -> (r: Option<String>)
        ensures
            r.is_some() == self.fresh(now),
            self.fresh(now) ==> r.unwrap()@ == self.current().unwrap().value.header(),
    {
        match &self.current_token {
            Some(token) => {
                if token.expiry.at_or_after(&now) {
                    Some(token.value.to_string())
                } else {
                    None
                }
            },
            None => None,
        }
    }

    /// The claims that ask for a token at `now`, unless their expiry cannot be
    /// represented.
    pub fn claims(&self, now: Instant) -> (r: Option<Claims>)
        ensures
            r.is_some() == (now.secs + REUSE_SECONDS <= i64::MAX),
            r matches Some(c) ==> (c.iss@, c.scope@, c.aud@, c.exp as int, c.iat as int)
                == self.claims_at(now),
    {
        match now.later(REUSE_SECONDS) {
            Some(expiry) => Some(
                Claims {
                    iss: self.creds.client_email.clone(),
                    scope: self.scopes.clone(),
                    aud: String::from_str(AUTH_ENDPOINT),
                    exp: expiry.secs,
                    iat: now.secs,
                },
            ),
            None => None,
        }
    }

    /// Whether `step` is the answer owed at `now`: the kept token while it is
    /// reused; else the request that carries the assertion signed at `now`,
    /// with the expiry `REUSE_SECONDS` later; else the error that says why no
    /// request could be prepared.
    pub open spec fn answers(self, now: Instant, step: Result<TokenStep, TokenError>) -> bool {
        if self.fresh(now) {
            step matches Ok(TokenStep::Ready(header))
                && header@ == self.current().unwrap().value.header()
        } else if now.secs + REUSE_SECONDS > i64::MAX {
            step == Err::<TokenStep, TokenError>(TokenError::ClockOutOfRange)
        } else {
            match self.assertion_at(now) {
                None => step == Err::<TokenStep, TokenError>(TokenError::Signing),
                Some(assertion) => step matches Ok(TokenStep::Fetch(request))
                    && is_token_request(
                    request,
                    assertion,
                    Instant { secs: (now.secs + REUSE_SECONDS) as i64, nanos: now.nanos },
                ),
            }
        }
    }

    /// Decides at `now` how the caller gets its token: from the cache, or by
    /// sending the request returned.
    pub fn token_at(&self, now: Instant) -> (r: Result<TokenStep, TokenError>)
        ensures
            self.answers(now, r),
    {
        match self.cached(now) {
            Some(header) => Ok(TokenStep::Ready(header)),
            None => {
                let claims = match self.claims(now) {
                    Some(claims) => claims,
                    None => { return Err(TokenError::ClockOutOfRange); },
                };
                let expiry = Instant { secs: claims.exp, nanos: now.nanos };
                match sign_claims(&claims, self.creds.private_key.as_str()) {
                    Some(assertion) => Ok(TokenStep::Fetch(token_request(assertion.as_str(), expiry))),
                    None => Err(TokenError::Signing),
                }
            },
        }
    }

    /// Decides at the present instant how the caller gets its token. The clock
    /// is read once; the answer is the one owed at the instant it showed.
    pub fn token(&self) -> (r: Result<TokenStep, TokenError>)
        ensures
            exists|now: Instant| now.nanos < 1_000_000_000 && #[trigger] self.answers(now, r),
    {
        let now = utc_now();
        self.token_at(now)
    }

    /// Keeps the access token that a fetch brought, to be reused up to
    /// `expiry`, and returns the authorization header's value.
    pub fn accept(&mut self, access_token: String, expiry: Instant) -> (r: String)
        ensures
            final(self).creds() == old(self).creds(),
            final(self).scopes() == old(self).scopes(),
            final(self).current() matches Some(token) && token.expiry == expiry
                && token.value.header() == "Bearer "@ + access_token@,
            r@ == "Bearer "@ + access_token@,
    {
        let value = TokenValue::Bearer(access_token);
        let header = value.to_string();
        self.current_token = Some(Token { expiry, value });
        header
    }
}

} // verus!
