//! Logging in: the check of the credentials and the issue of a token.

use crate::error::{AppError, AppErrorView};
use crate::models::{Claims, ClaimsView, LoginRequest, LoginResponse};
use crate::text::text_eq;
use crate::token::{EXPIRY_CLAIM, SUBJECT_CLAIM};
use vstd::prelude::*;
use vstd::string::StringExecFns;

verus! {

/// The one account that may log in.
pub const ACCOUNT_EMAIL: &'static str = "test@example.com";

/// The password of that account.
pub const ACCOUNT_PASSWORD: &'static str = "securepassword";

/// The number of seconds from the issue of a token to its expiration time:
/// 24 hours.
pub const TOKEN_LIFETIME: i64 = 86400;

/// Whether the credentials are those of the account.
pub open spec fn credentials_accepted(email: Seq<char>, password: Seq<char>) -> bool {
    email == ACCOUNT_EMAIL@ && password == ACCOUNT_PASSWORD@
}

/// Checks the credentials of a login. Anything but the account's email and
/// password is refused as unauthorized.
pub fn check_credentials(request: &LoginRequest) -> (outcome: Result<(), AppError>)
    ensures
        match outcome {
            Ok(()) => credentials_accepted(request.email@, request.password@),
            Err(error) => !credentials_accepted(request.email@, request.password@) && error@
                == AppErrorView::Unauthorized("Invalid credentials"@),
        },
{
    if text_eq(request.email.as_str(), ACCOUNT_EMAIL) && text_eq(
        request.password.as_str(),
        ACCOUNT_PASSWORD,
    ) {
        Ok(())
    } else {
        Err(AppError::Unauthorized(String::from_str("Invalid credentials")))
    }
}

/// Whether a token can be issued at the Unix time `now`: its expiration
/// time must be a time after the epoch that the machine can hold.
pub open spec fn expiration_fits(now: int) -> bool {
    0 <= now + TOKEN_LIFETIME <= usize::MAX && now + TOKEN_LIFETIME <= i64::MAX
}

/// The claims of a token issued to `user_id` at the Unix time `now`: the
/// token nominally expires 24 hours later.
pub fn issue_claims(user_id: &str, now: i64) -> (claims: Claims)
    requires
        expiration_fits(now as int),
    ensures
        claims@ == (ClaimsView { sub: user_id@, exp: (now + TOKEN_LIFETIME) as nat }),
{
    let expiration: i64 = now + TOKEN_LIFETIME;
    Claims { sub: String::from_str(user_id), exp: expiration as usize }
}

/// Whether a token can be issued at the Unix time `now`.
pub fn can_issue_at(now: i64) -> (possible: bool)
    ensures
        possible == expiration_fits(now as int),
{
    now >= -TOKEN_LIFETIME && now <= i64::MAX - TOKEN_LIFETIME && (now + TOKEN_LIFETIME) as u64
        <= usize::MAX as u64
}

/// The claims of a token issued to `user_id` at the Unix time `now`, where
/// one can be issued then.
pub fn try_issue_claims(user_id: &str, now: i64) -> (claims: Option<Claims>)
    ensures
        match claims {
            Some(c) => expiration_fits(now as int) && c@ == (ClaimsView {
                sub: user_id@,
                exp: (now + TOKEN_LIFETIME) as nat,
            }),
            None => !expiration_fits(now as int),
        },
{
    if can_issue_at(now) {
        Some(issue_claims(user_id, now))
    } else {
        None
    }
}

/// What `jsonwebtoken::encode` makes of a payload of two claims, a text
/// under `text_claim` and a number under `number_claim`, with the default
/// header and the HMAC key `secret`: the signed token, or the text of the
/// error.
pub uninterp spec fn jwt_encoded(
    text_claim: Seq<char>,
    text: Seq<char>,
    number_claim: Seq<char>,
    number: u64,
    secret: Seq<char>,
) -> Result<Seq<char>, Seq<char>>;

/// The content of the outcome of signing a token.
pub open spec fn encoded_view(encoded: Result<String, String>) -> Result<Seq<char>, Seq<char>> {
    match encoded {
        Ok(token) => Ok(token@),
        Err(diagnostic) => Err(diagnostic@),
    }
}

/// Calls `jsonwebtoken::encode` with `Header::default()`, a payload built
/// as a `serde_json::Map` of the two claims, and a key made by
/// `EncodingKey::from_secret`. Trusted: the outcome is a function of the
/// arguments.
#[verifier::external_body]
fn jwt_encode(
    text_claim: &str,
    text: &str,
    number_claim: &str,
    number: u64,
    secret: &str,
) -> (encoded: Result<String, String>)
    ensures
        encoded_view(encoded) == jwt_encoded(text_claim@, text@, number_claim@, number, secret@),
{
    let mut payload = serde_json::Map::new();
    payload.insert(text_claim.to_string(), serde_json::Value::from(text));
    payload.insert(number_claim.to_string(), serde_json::Value::from(number));
    let key = jsonwebtoken::EncodingKey::from_secret(secret.as_bytes());
    match jsonwebtoken::encode(&jsonwebtoken::Header::default(), &payload, &key) {
        Ok(token) => Ok(token),
        Err(e) => Err(e.to_string()),
    }
}

/// The token for the given claims, or the error to answer with where the
/// token could not be signed.
pub open spec fn token_of(encoded: Result<Seq<char>, Seq<char>>) -> Result<
    Seq<char>,
    AppErrorView,
> {
    match encoded {
        Ok(token) => Ok(token),
        Err(diagnostic) => Err(AppErrorView::Unauthorized("JWT Error: "@ + diagnostic)),
    }
}

/// The content of an issued token, or of the error in its place.
pub open spec fn issued_view(issued: Result<String, AppError>) -> Result<Seq<char>, AppErrorView> {
    match issued {
        Ok(token) => Ok(token@),
        Err(error) => Err(error@),
    }
}

/// Turns the outcome of signing into a token or the error to answer with.
pub fn token_from_encoded(encoded: Result<String, String>) -> (issued: Result<String, AppError>)
    ensures
        issued_view(issued) == token_of(encoded_view(encoded)),
{
    match encoded {
        Ok(token) => Ok(token),
        Err(diagnostic) => Err(AppError::from_jwt(diagnostic.as_str())),
    }
}

/// Signs a token that carries the claims, under the service's secret.
pub fn issue_token(claims: &Claims, secret: &str) -> (issued: Result<String, AppError>)
    ensures
        issued_view(issued) == token_of(
            jwt_encoded(SUBJECT_CLAIM@, claims.sub@, EXPIRY_CLAIM@, claims.exp as u64, secret@),
        ),
{
    token_from_encoded(
        jwt_encode(SUBJECT_CLAIM, claims.sub.as_str(), EXPIRY_CLAIM, claims.exp as u64, secret),
    )
}

/// The answer to a successful login.
pub fn login_response(token: String) -> (response: LoginResponse)
    ensures
        response.token@ == token@,
{
    LoginResponse { token }
}

} // verus!
