//! Signed, time-bound tokens: access tokens and refresh tokens.
//!
//! A token carries a subject, the moment it expires and a tag that says
//! which of the two kinds it is. Each kind is signed with a key of its own.
//! A token is good from the moment it is issued until its expiry; nothing
//! revokes it earlier.

use vstd::prelude::*;

verus! {

/// Minutes that an access token lives, unless the configuration says otherwise.
pub const ACCESS_TOKEN_MINUTES: i64 = 15;

/// Minutes that a refresh token lives, unless the configuration says
/// otherwise: fifteen days.
pub const REFRESH_TOKEN_MINUTES: i64 = 21600;

/// The two kinds of token.
#[derive(Clone, Copy, Debug, PartialEq, Eq, Structural)]
pub enum TokenKind {
    Access,
    Refresh,
}

/// Why a token was not issued, or not accepted.
#[derive(Clone, Copy, Debug, PartialEq, Eq, Structural)]
pub enum TokenError {
    /// No token could be signed: the key is missing, the expiry cannot be
    /// written down, or the signing library refused.
    SigningError,
    /// The token is not one of ours, is of the other kind, or has expired.
    InvalidToken,
}

/// The claims of a token.
#[derive(Debug)]
pub struct AuthTokenClaims {
    /// Whom the token speaks for.
    pub sub: String,
    /// The second, counted from the epoch, from which the token is no longer good.
    pub exp: usize,
    /// `"access"` or `"refresh"`.
    pub token_type: String,
}

/// The claims of a token as mathematical values.
pub struct ClaimsModel {
    pub sub: Seq<char>,
    pub exp: int,
    pub token_type: Seq<char>,
}

impl View for AuthTokenClaims {
    type V = ClaimsModel;

    open spec fn view(&self) -> ClaimsModel {
        ClaimsModel { sub: self.sub@, exp: self.exp as int, token_type: self.token_type@ }
    }
}

/// What the payload of a token holds under the three names that claims are
/// written with: a member is `None` where the payload has none of that name,
/// or one of another type.
pub struct RawClaims {
    pub sub: Option<String>,
    pub exp: Option<u64>,
    pub token_type: Option<String>,
}

impl RawClaims {
    pub open spec fn members(&self) -> (Option<Seq<char>>, Option<int>, Option<Seq<char>>) {
        (
            match self.sub {
                Some(s) => Some(s@),
                None => None,
            },
            match self.exp {
                Some(e) => Some(e as int),
                None => None,
            },
            match self.token_type {
                Some(s) => Some(s@),
                None => None,
            },
        )
    }
}

/// The keys and lifetimes that tokens are issued and checked with.
pub struct TokenConfig {
    /// Signs access tokens. Empty where no key is at hand.
    pub access_key: Vec<u8>,
    /// Signs refresh tokens. Empty where no key is at hand.
    pub refresh_key: Vec<u8>,
    /// Minutes that an access token lives.
    pub access_minutes: i64,
    /// Minutes that a refresh token lives.
    pub refresh_minutes: i64,
}

/// The error of the token library. Nothing of it is read here.
#[verifier::external_type_specification]
#[verifier::external_body]
pub struct ExJwtError(jsonwebtoken::errors::Error);

/// The token that signing the three claims with `secret` gives; `None`
/// where the token library returns an error.
pub uninterp spec fn jwt_encode(
    sub: Seq<char>,
    exp: int,
    token_type: Seq<char>,
    secret: Seq<u8>,
) -> Option<Seq<char>>;

/// The members `sub`, `exp` and `token_type` of the payload of `token`;
/// `None` where the token library does not accept `token` under `secret`.
pub uninterp spec fn jwt_decode(token: Seq<char>, secret: Seq<u8>) -> Option<
    (Option<Seq<char>>, Option<int>, Option<Seq<char>>),
>;

/// Trusted: `jsonwebtoken::encode` with the default header (HS256) on a JSON
/// object of the three claims, written under the names of the token
/// format: `sub` and `exp` are the registered names that the token library
/// itself reads when it decodes, so they stand beside the call. The result
/// is a function of the claims and the key, so it is the named one. Of a token that comes back the contract
/// adds what the crate's source shows of `jsonwebtoken::decode`: it checks
/// the signature by signing again with the key it is given, so it accepts
/// the token under the key that signed it; and it reads the claims from the
/// payload alone, so under whatever key it accepts the token, it finds the
/// claims that were signed.
#[verifier::external_body]
fn jwt_sign(sub: &str, exp: u64, token_type: &str, secret: &[u8]) -> (r: Result<
    String,
    jsonwebtoken::errors::Error,
>)
    ensures
        match r {
            Ok(token) => {
                &&& jwt_encode(sub@, exp as int, token_type@, secret@) == Some(token@)
                &&& jwt_decode(token@, secret@) is Some
                &&& forall|key: Seq<u8>| #[trigger]
                    jwt_decode(token@, key) is Some ==> jwt_decode(token@, key) == Some(
                        (Some(sub@), Some(exp as int), Some(token_type@)),
                    )
            },
            Err(_) => jwt_encode(sub@, exp as int, token_type@, secret@) is None,
        },
{
    let mut claims = serde_json::Map::new();
    claims.insert("sub".to_owned(), serde_json::Value::from(sub));
    claims.insert("exp".to_owned(), serde_json::Value::from(exp));
    claims.insert("token_type".to_owned(), serde_json::Value::from(token_type));
    let key = jsonwebtoken::EncodingKey::from_secret(secret);
    jsonwebtoken::encode(&jsonwebtoken::Header::default(), &claims, &key)
}

/// Trusted: `jsonwebtoken::decode` of a JSON value, for HS256 and with the
/// library's own expiry check switched off (it reads the machine's clock;
/// expiry is checked here, against the moment the caller gives). What
/// remains is a function of the token and the key, so it is the named one.
#[verifier::external_body]
fn jwt_open(token: &str, secret: &[u8]) -> (r: Result<RawClaims, jsonwebtoken::errors::Error>)
    ensures
        match r {
            Ok(raw) => jwt_decode(token@, secret@) == Some(raw.members()),
            Err(_) => jwt_decode(token@, secret@) is None,
        },
{
    let mut validation = jsonwebtoken::Validation::new(jsonwebtoken::Algorithm::HS256);
    validation.validate_exp = false;
    let key = jsonwebtoken::DecodingKey::from_secret(secret);
    let data = jsonwebtoken::decode::<serde_json::Value>(token, &key, &validation)?;
    Ok(RawClaims {
        sub: data.claims.get("sub").and_then(serde_json::Value::as_str).map(str::to_owned),
        exp: data.claims.get("exp").and_then(serde_json::Value::as_u64),
        token_type: data.claims.get("token_type").and_then(serde_json::Value::as_str).map(str::to_owned),
    })
}

/// Trusted: `chrono::Utc::now` and `DateTime::timestamp`, the seconds since
/// the epoch on the machine's clock. The crate counts them from the epoch
/// as an unsigned number, so a reading is never negative; nothing else is
/// promised of it.
#[verifier::external_body]
pub(crate) fn current_timestamp() -> (now: i64)
    ensures
        0 <= now,
{
    chrono::Utc::now().timestamp()
}

impl TokenKind {
    /// The tag that a token of this kind carries.
    pub open spec fn tag(self) -> Seq<char> {
        match self {
            TokenKind::Access => "access"@,
            TokenKind::Refresh => "refresh"@,
        }
    }

    /// The kind that this one is not.
    pub open spec fn other(self) -> TokenKind {
        match self {
            TokenKind::Access => TokenKind::Refresh,
            TokenKind::Refresh => TokenKind::Access,
        }
    }

    /// The tag that a token of this kind carries.
    pub fn as_str(&self) -> (s: &'static str)
        ensures
            s@ == self.tag(),
    {
        match self {
            TokenKind::Access => "access",
            TokenKind::Refresh => "refresh",
        }
    }
}

/// The two tags differ.
pub proof fn lemma_tags_differ(kind: TokenKind)
    ensures
        kind.tag() != kind.other().tag(),
{
    reveal_strlit("access");
    reveal_strlit("refresh");
    assert("access"@.len() != "refresh"@.len());
}

impl TokenConfig {
    /// A configuration with the usual lifetimes.
    pub fn new(access_key: Vec<u8>, refresh_key: Vec<u8>) -> (config: TokenConfig)
        ensures
            config.access_key == access_key,
            config.refresh_key == refresh_key,
            config.access_minutes == ACCESS_TOKEN_MINUTES,
            config.refresh_minutes == REFRESH_TOKEN_MINUTES,
    {
        TokenConfig {
            access_key,
            refresh_key,
            access_minutes: ACCESS_TOKEN_MINUTES,
            refresh_minutes: REFRESH_TOKEN_MINUTES,
        }
    }

    /// The key that signs tokens of `kind`.
    pub open spec fn key_spec(&self, kind: TokenKind) -> Seq<u8> {
        match kind {
            TokenKind::Access => self.access_key@,
            TokenKind::Refresh => self.refresh_key@,
        }
    }

    /// The minutes that a token of `kind` lives.
    pub open spec fn minutes_spec(&self, kind: TokenKind) -> int {
        match kind {
            TokenKind::Access => self.access_minutes as int,
            TokenKind::Refresh => self.refresh_minutes as int,
        }
    }

    /// The key that signs tokens of `kind`.
    pub fn key(&self, kind: TokenKind) -> (k: &Vec<u8>)
        ensures
            k@ == self.key_spec(kind),
    {
        match kind {
            TokenKind::Access => &self.access_key,
            TokenKind::Refresh => &self.refresh_key,
        }
    }

    /// The minutes that a token of `kind` lives.
    pub fn minutes(&self, kind: TokenKind) -> (m: i64)
        ensures
            m == self.minutes_spec(kind),
    {
        match kind {
            TokenKind::Access => self.access_minutes,
            TokenKind::Refresh => self.refresh_minutes,
        }
    }
}

/// The expiry of a token issued at second `now` for `minutes` minutes.
pub open spec fn expiry(now: int, minutes: int) -> int {
    now + minutes * 60
}

/// What issuing returns: a token, where there is a key, the expiry can be
/// written down and the token library signs; `SigningError` otherwise.
pub open spec fn issue_spec(
    secret: Seq<u8>,
    kind: TokenKind,
    subject: Seq<char>,
    minutes: int,
    now: int,
) -> Result<Seq<char>, TokenError> {
    let exp = expiry(now, minutes);
    if secret.len() == 0 || exp < 0 || exp > usize::MAX || exp > u64::MAX {
        Err(TokenError::SigningError)
    } else {
        match jwt_encode(subject, exp, kind.tag(), secret) {
            Some(token) => Ok(token),
            None => Err(TokenError::SigningError),
        }
    }
}

/// The claims that three members of a payload make: all three are there,
/// and the expiry fits the field that holds it.
pub open spec fn claims_spec(
    members: (Option<Seq<char>>, Option<int>, Option<Seq<char>>),
) -> Option<ClaimsModel> {
    match members {
        (Some(sub), Some(exp), Some(token_type)) => if 0 <= exp <= usize::MAX {
            Some(ClaimsModel { sub, exp, token_type })
        } else {
            None
        },
        _ => None,
    }
}

/// Claims are good for `kind` at second `now`: they carry its tag and the
/// expiry is still ahead.
pub open spec fn accepts(claims: ClaimsModel, kind: TokenKind, now: int) -> bool {
    claims.token_type == kind.tag() && now < claims.exp
}

/// What validation returns: the claims of a token that the token library
/// accepts under the key, that holds all three claims, that carries the tag
/// of `kind` and that has not expired at `now`; `InvalidToken` otherwise.
pub open spec fn validate_spec(
    secret: Seq<u8>,
    kind: TokenKind,
    token: Seq<char>,
    now: int,
) -> Result<ClaimsModel, TokenError> {
    if secret.len() == 0 {
        Err(TokenError::InvalidToken)
    } else {
        match jwt_decode(token, secret) {
            None => Err(TokenError::InvalidToken),
            Some(members) => match claims_spec(members) {
                None => Err(TokenError::InvalidToken),
                Some(claims) => if accepts(claims, kind, now) {
                    Ok(claims)
                } else {
                    Err(TokenError::InvalidToken)
                },
            },
        }
    }
}

/// What holds of a token that was issued for `subject` as `kind`, signed
/// with `secret`, to expire at `exp`.
pub open spec fn issued(
    token: Seq<char>,
    secret: Seq<u8>,
    kind: TokenKind,
    subject: Seq<char>,
    exp: int,
) -> bool {
    let claims = ClaimsModel { sub: subject, exp, token_type: kind.tag() };
    // Before its expiry it is accepted as its kind under its key, with the
    // claims it was issued with.
    &&& forall|at: int|
        at < exp ==> #[trigger] validate_spec(secret, kind, token, at) == Ok::<
            ClaimsModel,
            TokenError,
        >(claims)
    // From its expiry on it is refused, under every key.
    &&& forall|key: Seq<u8>, at: int|
        at >= exp ==> #[trigger] validate_spec(key, kind, token, at) == Err::<
            ClaimsModel,
            TokenError,
        >(TokenError::InvalidToken)
    // As the other kind it is refused, at every moment and under every key,
    // the same one too.
    &&& forall|key: Seq<u8>, at: int| #[trigger]
        validate_spec(key, kind.other(), token, at) == Err::<ClaimsModel, TokenError>(
            TokenError::InvalidToken,
        )
}

/// Signs the claims of a token of `kind` for `subject` that expires
/// `expiry_minutes` minutes after second `now`.
pub fn generate_token(
    subject: &str,
    expiry_minutes: i64,
    kind: TokenKind,
    secret: &[u8],
    now: i64,
) -> (r: Result<String, TokenError>)
    ensures
        match r {
            Ok(token) => {
                &&& issue_spec(secret@, kind, subject@, expiry_minutes as int, now as int) == Ok::<
                    Seq<char>,
                    TokenError,
                >(token@)
                &&& issued(token@, secret@, kind, subject@, expiry(now as int, expiry_minutes as int))
            },
            Err(e) => issue_spec(secret@, kind, subject@, expiry_minutes as int, now as int) == Err::<
                Seq<char>,
                TokenError,
            >(e),
        },
{
    let exp: i128 = (now as i128) + (expiry_minutes as i128) * 60;
    if secret.len() == 0 || exp < 0 || exp > usize::MAX as i128 || exp > u64::MAX as i128 {
        return Err(TokenError::SigningError);
    }
    match jwt_sign(subject, exp as u64, kind.as_str(), secret) {
        Ok(token) => {
            proof {
                lemma_tags_differ(kind);
                let members = (Some(subject@), Some(exp as int), Some(kind.tag()));
                assert(claims_spec(members) == Some(
                    ClaimsModel { sub: subject@, exp: exp as int, token_type: kind.tag() },
                ));
            }
            Ok(token)
        },
        Err(_) => Err(TokenError::SigningError),
    }
}

/// Issues a token of `kind` for `subject` at second `now`, with the key and
/// the lifetime that the configuration has for that kind.
pub fn issue_token(config: &TokenConfig, kind: TokenKind, subject: &str, now: i64) -> (r: Result<
    String,
    TokenError,
>)
    ensures
        match r {
            Ok(token) => {
                &&& issue_spec(
                    config.key_spec(kind),
                    kind,
                    subject@,
                    config.minutes_spec(kind),
                    now as int,
                ) == Ok::<Seq<char>, TokenError>(token@)
                &&& issued(
                    token@,
                    config.key_spec(kind),
                    kind,
                    subject@,
                    expiry(now as int, config.minutes_spec(kind)),
                )
            },
            Err(e) => issue_spec(
                config.key_spec(kind),
                kind,
                subject@,
                config.minutes_spec(kind),
                now as int,
            ) == Err::<Seq<char>, TokenError>(e),
        },
{
    generate_token(subject, config.minutes(kind), kind, config.key(kind).as_slice(), now)
}

/// The result `r` is what issuing a token of `kind` for `subject` at some
/// second of the clock gives; the clock does not read before the epoch.
pub open spec fn issued_at_some_moment(
    r: Result<String, TokenError>,
    config: &TokenConfig,
    kind: TokenKind,
    subject: Seq<char>,
) -> bool {
    exists|now: int|
        {
            &&& 0 <= now <= i64::MAX
            &&& match r {
                Ok(token) => {
                    &&& #[trigger] issue_spec(
                        config.key_spec(kind),
                        kind,
                        subject,
                        config.minutes_spec(kind),
                        now,
                    ) == Ok::<Seq<char>, TokenError>(token@)
                    &&& issued(
                        token@,
                        config.key_spec(kind),
                        kind,
                        subject,
                        expiry(now, config.minutes_spec(kind)),
                    )
                },
                Err(e) => issue_spec(
                    config.key_spec(kind),
                    kind,
                    subject,
                    config.minutes_spec(kind),
                    now,
                ) == Err::<Seq<char>, TokenError>(e),
            }
        }
}

/// Issues an access token for `email`, good from now for the configured
/// lifetime of access tokens.
pub fn generate_access_token(config: &TokenConfig, email: &str) -> (r: Result<String, TokenError>)
    ensures
        issued_at_some_moment(r, config, TokenKind::Access, email@),
{
    let now = current_timestamp();
    issue_token(config, TokenKind::Access, email, now)
}

/// Issues a refresh token for `email`, good from now for the configured
/// lifetime of refresh tokens.
pub fn generate_refresh_token(config: &TokenConfig, email: &str) -> (r: Result<String, TokenError>)
    ensures
        issued_at_some_moment(r, config, TokenKind::Refresh, email@),
{
    let now = current_timestamp();
    issue_token(config, TokenKind::Refresh, email, now)
}

/// Makes claims of the members of a payload, where all three are there.
pub fn claims_of(raw: RawClaims) -> (r: Option<AuthTokenClaims>)
    ensures
        match r {
            Some(claims) => claims_spec(raw.members()) == Some(claims@),
            None => claims_spec(raw.members()) is None,
        },
{
    match (raw.sub, raw.exp, raw.token_type) {
        (Some(sub), Some(exp), Some(token_type)) => {
            if exp > usize::MAX as u64 {
                None
            } else {
                Some(AuthTokenClaims { sub, exp: exp as usize, token_type })
            }
        },
        _ => None,
    }
}

/// Accepts claims that carry the tag of `kind` and have not expired at
/// second `now`, and refuses all others.
pub fn check_claims(claims: AuthTokenClaims, kind: TokenKind, now: i64) -> (r: Result<
    AuthTokenClaims,
    TokenError,
>)
    ensures
        match r {
            Ok(accepted) => accepts(claims@, kind, now as int) && accepted == claims,
            Err(e) => !accepts(claims@, kind, now as int) && e == TokenError::InvalidToken,
        },
{
    let tag = kind.as_str().to_owned();
    if claims.token_type == tag && (now as i128) < (claims.exp as i128) {
        Ok(claims)
    } else {
        Err(TokenError::InvalidToken)
    }
}

/// The result `r` is what `validate_spec` gives.
pub open spec fn validated(
    r: Result<AuthTokenClaims, TokenError>,
    secret: Seq<u8>,
    kind: TokenKind,
    token: Seq<char>,
    now: int,
) -> bool {
    match r {
        Ok(claims) => validate_spec(secret, kind, token, now) == Ok::<ClaimsModel, TokenError>(
            claims@,
        ),
        Err(e) => validate_spec(secret, kind, token, now) == Err::<ClaimsModel, TokenError>(e),
    }
}

/// Validates `token` as a token of `kind` at second `now`.
pub fn validate_token_at(config: &TokenConfig, kind: TokenKind, token: &str, now: i64) -> (r: Result<
    AuthTokenClaims,
    TokenError,
>)
    ensures
        validated(r, config.key_spec(kind), kind, token@, now as int),
{
    let secret = config.key(kind);
    if secret.len() == 0 {
        return Err(TokenError::InvalidToken);
    }
    match jwt_open(token, secret.as_slice()) {
        Err(_) => Err(TokenError::InvalidToken),
        Ok(raw) => match claims_of(raw) {
            None => Err(TokenError::InvalidToken),
            Some(claims) => check_claims(claims, kind, now),
        },
    }
}

impl AuthTokenClaims {
    /// Validates `token` as an access token against the clock.
    pub fn validate_token(config: &TokenConfig, token: &str) -> (r: Result<AuthTokenClaims, TokenError>)
        ensures
            exists|now: int|
                0 <= now <= i64::MAX && #[trigger] validated(
                    r,
                    config.key_spec(TokenKind::Access),
                    TokenKind::Access,
                    token@,
                    now,
                ),
    {
        let now = current_timestamp();
        let r = validate_token_at(config, TokenKind::Access, token, now);
        r
    }

    /// Validates `token` as a refresh token against the clock.
    pub fn validate_refresh_token(config: &TokenConfig, token: &str) -> (r: Result<
        AuthTokenClaims,
        TokenError,
    >)
        ensures
            exists|now: int|
                0 <= now <= i64::MAX && #[trigger] validated(
                    r,
                    config.key_spec(TokenKind::Refresh),
                    TokenKind::Refresh,
                    token@,
                    now,
                ),
    {
        let now = current_timestamp();
        let r = validate_token_at(config, TokenKind::Refresh, token, now);
        r
    }
}

/// Validation has one error, and what it accepts carries the tag of the
/// kind and an expiry that is still ahead: once the moment has reached the
/// expiry that a token carries, the token is refused, whatever else holds
/// of it.
pub proof fn lemma_accepted_is_unexpired(secret: Seq<u8>, kind: TokenKind, token: Seq<char>, now: int)
    ensures
        match validate_spec(secret, kind, token, now) {
            Ok(claims) => now < claims.exp && claims.token_type == kind.tag() && secret.len() > 0,
            Err(e) => e == TokenError::InvalidToken,
        },
{
}

/// A token that is refused at one moment is refused at every later one: no
/// token comes back to life.
pub proof fn lemma_refused_stays_refused(
    secret: Seq<u8>,
    kind: TokenKind,
    token: Seq<char>,
    now: int,
    later: int,
)
    requires
        now <= later,
    ensures
        validate_spec(secret, kind, token, now) is Err ==> validate_spec(secret, kind, token, later)
            is Err,
{
}

/// Under one key a token is never accepted as both kinds, so equal keys for
/// the two kinds do not make a token of one kind pass for the other.
pub proof fn lemma_one_kind_only(key: Seq<u8>, token: Seq<char>, now: int, then: int)
    ensures
        !(validate_spec(key, TokenKind::Access, token, now) is Ok && validate_spec(
            key,
            TokenKind::Refresh,
            token,
            then,
        ) is Ok),
{
    lemma_tags_differ(TokenKind::Access);
}

} // verus!
