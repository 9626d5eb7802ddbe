//! Verification of bearer tokens.
//!
//! A request proves who sent it with an `Authorization` header of the form
//! `Bearer <token>`, where the token is a JSON Web Token signed with the
//! service's secret under HS256. The token's expiration time is read but
//! deliberately not enforced: a token stays acceptable after it.

use crate::error::{AuthError, AuthErrorView};
use crate::models::{Claims, ClaimsView};
use crate::text::{has_prefix, join, text_from};
use vstd::prelude::*;
use vstd::string::{StrSliceExecFns, StringExecFns};

verus! {

/// What a credential begins with.
pub const BEARER_PREFIX: &'static str = "Bearer ";

/// The claim that names the token's subject.
pub const SUBJECT_CLAIM: &'static str = "sub";

/// The claim that holds the token's expiration time.
pub const EXPIRY_CLAIM: &'static str = "exp";

/// Whether a token past its expiration time is refused. It is not.
pub const ENFORCE_EXPIRATION: bool = false;

/// The token inside a header value: what follows `Bearer `, if the value
/// begins with it.
pub open spec fn bearer_token(header: Seq<char>) -> Option<Seq<char>> {
    if BEARER_PREFIX@.is_prefix_of(header) {
        Some(header.skip(BEARER_PREFIX@.len() as int))
    } else {
        None
    }
}

/// The token inside a header value.
pub fn extract_bearer(header: &str) -> (token: Option<String>)
    ensures
        match token {
            Some(t) => bearer_token(header@) == Some(t@),
            None => bearer_token(header@) is None,
        },
{
    if has_prefix(header, BEARER_PREFIX) {
        Some(text_from(header, BEARER_PREFIX.unicode_len()))
    } else {
        None
    }
}

/// What reading a token yields: the text of one claim and the number of
/// another, each only if the payload holds it in that form; or the
/// diagnostic of a token that was refused.
pub type Decoded = Result<(Option<String>, Option<u64>), String>;

/// The mathematical content of a [`Decoded`].
pub type DecodedView = Result<(Option<Seq<char>>, Option<u64>), Seq<char>>;

/// The content of a decoding outcome.
pub open spec fn decoded_view(decoded: Decoded) -> DecodedView {
    match decoded {
        Ok((text, number)) => Ok(
            (
                match text {
                    Some(t) => Some(t@),
                    None => None,
                },
                number,
            ),
        ),
        Err(diagnostic) => Err(diagnostic@),
    }
}

/// What `jsonwebtoken::decode` makes of `token` under the HMAC key `secret`,
/// with the default validation for HS256 except that expiration is not
/// checked: on acceptance, the payload's claim `text_claim` if it is a
/// string and its claim `number_claim` if it is a non-negative integer; on
/// refusal, the text of the error.
pub uninterp spec fn jwt_decoded(
    token: Seq<char>,
    secret: Seq<char>,
    text_claim: Seq<char>,
    number_claim: Seq<char>,
) -> DecodedView;

/// Calls `jsonwebtoken::decode` with `Validation::default()`, whose
/// `validate_exp` is set to the given flag, and a key made by
/// `DecodingKey::from_secret`. The payload is read as a `serde_json::Value`,
/// of which two claims are handed out by `Value::get`, `as_str` and
/// `as_u64`; an error is handed out as its text. Trusted: with expiration
/// unchecked the call reads no clock, so its outcome is a function of the
/// arguments. Nothing is claimed of a call that checks expiration.
#[verifier::external_body]
fn jwt_decode(
    token: &str,
    secret: &str,
    validate_exp: bool,
    text_claim: &str,
    number_claim: &str,
) -> (decoded: Decoded)
    ensures
        !validate_exp ==> decoded_view(decoded) == jwt_decoded(
            token@,
            secret@,
            text_claim@,
            number_claim@,
        ),
{
    let mut validation = jsonwebtoken::Validation::default();
    validation.validate_exp = validate_exp;
    let key = jsonwebtoken::DecodingKey::from_secret(secret.as_bytes());
    let data = match jsonwebtoken::decode::<serde_json::Value>(token, &key, &validation) {
        Ok(data) => data,
        Err(e) => return Err(e.to_string()),
    };
    let text = data.claims.get(text_claim).and_then(serde_json::Value::as_str);
    let number = data.claims.get(number_claim).and_then(serde_json::Value::as_u64);
    Ok((text.map(str::to_string), number))
}

/// The claims that a decoding outcome stands for. A refused token, and an
/// accepted one whose payload lacks a usable subject or expiration time,
/// are unauthorized.
pub open spec fn claims_of(decoded: DecodedView) -> Result<ClaimsView, AuthErrorView> {
    match decoded {
        Ok((Some(sub), Some(exp))) => if exp <= usize::MAX {
            Ok(ClaimsView { sub, exp: exp as nat })
        } else {
            Err(AuthErrorView::Unauthorized("Invalid token: expiration time out of range"@))
        },
        Ok((Some(_), None)) => Err(
            AuthErrorView::Unauthorized("Invalid token: no usable expiration time"@),
        ),
        Ok((None, _)) => Err(AuthErrorView::Unauthorized("Invalid token: no usable subject"@)),
        Err(diagnostic) => Err(AuthErrorView::Unauthorized("Invalid token: "@ + diagnostic)),
    }
}

/// The content of the outcome of a validation.
pub open spec fn outcome_view(outcome: Result<Claims, AuthError>) -> Result<
    ClaimsView,
    AuthErrorView,
> {
    match outcome {
        Ok(claims) => Ok(claims@),
        Err(error) => Err(error@),
    }
}

/// Turns the outcome of reading a token into claims or a refusal.
pub fn claims_from_decoded(decoded: Decoded) -> (outcome: Result<Claims, AuthError>)
    ensures
        outcome_view(outcome) == claims_of(decoded_view(decoded)),
{
    match decoded {
        Ok((Some(sub), Some(exp))) => {
            if exp <= usize::MAX as u64 {
                Ok(Claims { sub, exp: exp as usize })
            } else {
                Err(
                    AuthError::Unauthorized(
                        String::from_str("Invalid token: expiration time out of range"),
                    ),
                )
            }
        },
        Ok((Some(_), None)) => Err(
            AuthError::Unauthorized(String::from_str("Invalid token: no usable expiration time")),
        ),
        Ok((None, _)) => Err(
            AuthError::Unauthorized(String::from_str("Invalid token: no usable subject")),
        ),
        Err(diagnostic) => Err(
            AuthError::Unauthorized(join("Invalid token: ", diagnostic.as_str())),
        ),
    }
}

/// What validating a header value under a secret yields.
pub open spec fn validated(header: Option<Seq<char>>, secret: Seq<char>) -> Result<
    ClaimsView,
    AuthErrorView,
> {
    match header {
        None => Err(AuthErrorView::MissingAuth),
        Some(value) => match bearer_token(value) {
            None => Err(AuthErrorView::InvalidFormat),
            Some(token) => claims_of(
                jwt_decoded(token, secret, SUBJECT_CLAIM@, EXPIRY_CLAIM@),
            ),
        },
    }
}

/// The content of an optional header value.
pub open spec fn header_view(header: Option<&str>) -> Option<Seq<char>> {
    match header {
        Some(value) => Some(value@),
        None => None,
    }
}

/// Verifies the credential of a request: the value of its `Authorization`
/// header, if it has one, against the service's secret.
///
/// A missing header and a value without the `Bearer ` prefix are told
/// apart; every other refusal is `Unauthorized` with a diagnostic. The
/// token's expiration time plays no part.
pub fn validate(header: Option<&str>, secret: &str) -> (outcome: Result<Claims, AuthError>)
    ensures
        outcome_view(outcome) == validated(header_view(header), secret@),
        header is None ==> outcome == Err::<Claims, AuthError>(AuthError::MissingAuth),
        header matches Some(value) && !BEARER_PREFIX@.is_prefix_of(value@) ==> outcome == Err::<
            Claims,
            AuthError,
        >(AuthError::InvalidFormat),
{
    match header {
        None => Err(AuthError::MissingAuth),
        Some(value) => match extract_bearer(value) {
            None => Err(AuthError::InvalidFormat),
            Some(token) => claims_from_decoded(
                jwt_decode(token.as_str(), secret, ENFORCE_EXPIRATION, SUBJECT_CLAIM, EXPIRY_CLAIM),
            ),
        },
    }
}

/// A token that the token library accepts under the secret yields the
/// claims it carries, whatever its expiration time: no clock enters the
/// decision, so a token long expired is accepted like a fresh one.
pub proof fn lemma_expiration_is_not_enforced(
    header: Seq<char>,
    secret: Seq<char>,
    claims: ClaimsView,
)
    requires
        bearer_token(header) matches Some(token) && jwt_decoded(
            token,
            secret,
            SUBJECT_CLAIM@,
            EXPIRY_CLAIM@,
        ) == Ok::<(Option<Seq<char>>, Option<u64>), Seq<char>>(
            (Some(claims.sub), Some(claims.exp as u64)),
        ),
        claims.exp <= usize::MAX,
    ensures
        validated(Some(header), secret) == Ok::<ClaimsView, AuthErrorView>(claims),
{
}

/// A header value that does not begin with `Bearer ` is refused as
/// malformed, whatever the secret; a request without the header is refused
/// as lacking a credential.
pub proof fn lemma_header_format(header: Seq<char>, secret: Seq<char>)
    ensures
        !BEARER_PREFIX@.is_prefix_of(header) ==> validated(Some(header), secret) == Err::<
            ClaimsView,
            AuthErrorView,
        >(AuthErrorView::InvalidFormat),
        validated(None, secret) == Err::<ClaimsView, AuthErrorView>(AuthErrorView::MissingAuth),
{
}

} // verus!
