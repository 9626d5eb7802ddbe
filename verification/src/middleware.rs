//! The two interceptors that a protected request passes before it is handled.
//!
//! The first verifies the request's token and notes its claims in the
//! request's context. The second lets a request pass only if its context
//! holds claims. Neither knows of the other: what joins them is the context.

use crate::error::{AppError, AppErrorView, AuthError, AuthErrorView};
use crate::ids::{parse_uuid, uuid_parsed};
use crate::models::{Claims, ClaimsView};
use crate::text::{ascii_text, lemma_ascii_is_utf8, string_from_utf8};
use crate::token::{validate, validated};
use vstd::prelude::*;
use vstd::slice::slice_to_vec;
use vstd::string::StringExecFns;

verus! {

/// What one request has learned about its sender: the claims of its token
/// once that was verified, nothing before.
#[derive(Debug, Clone, PartialEq, Eq)]
pub struct RequestContext {
    claims: Option<Claims>,
}

impl View for RequestContext {
    type V = Option<ClaimsView>;

    closed spec fn view(&self) -> Option<ClaimsView> {
        match self.claims {
            Some(claims) => Some(claims@),
            None => None,
        }
    }
}

impl RequestContext {
    /// The context of a request of which nothing is known yet.
    pub fn new() -> (context: RequestContext)
        ensures
            context@ is None,
    {
        RequestContext { claims: None }
    }

    /// The context of a request whose sender was established by other means
    /// than a token.
    pub fn with_claims(claims: Claims) -> (context: RequestContext)
        ensures
            context@ == Some(claims@),
    {
        RequestContext { claims: Some(claims) }
    }

    /// The claims of the request's sender, once established.
    pub fn claims(&self) -> (claims: Option<&Claims>)
        ensures
            match claims {
                Some(c) => self@ == Some(c@),
                None => self@ is None,
            },
    {
        self.claims.as_ref()
    }

    /// Whether the request's sender is established.
    pub fn has_claims(&self) -> (held: bool)
        ensures
            held == (self@ is Some),
    {
        self.claims.is_some()
    }
}

/// The `Authorization` header as a request carries it.
#[derive(Debug, Clone, PartialEq, Eq)]
pub enum AuthorizationHeader {
    /// The request has no such header.
    Missing,
    /// The header's value holds bytes that are no visible ASCII.
    NotText,
    /// The header's value.
    Text(String),
}

/// Whether a byte may stand in a header value that is read as text: a
/// visible ASCII character, a space or a tab.
pub open spec fn is_visible_ascii(byte: u8) -> bool {
    (32 <= byte && byte < 127) || byte == 9
}

/// Whether every byte of a header value may stand in text.
pub open spec fn is_header_text(bytes: Seq<u8>) -> bool {
    forall|i: int| 0 <= i < bytes.len() ==> is_visible_ascii(#[trigger] bytes[i])
}

impl AuthorizationHeader {
    /// The header of a request, from the raw bytes of its value if the
    /// request has the header. The value is text exactly if all its bytes
    /// are visible ASCII, spaces or tabs; the text then holds them one for
    /// one.
    pub fn from_bytes(value: Option<&[u8]>) -> (header: AuthorizationHeader)
        ensures
            match value {
                None => header is Missing,
                Some(bytes) => if is_header_text(bytes@) {
                    header matches AuthorizationHeader::Text(text) && text@ == ascii_text(bytes@)
                } else {
                    header is NotText
                },
            },
    {
        let bytes = match value {
            None => {
                return AuthorizationHeader::Missing;
            },
            Some(bytes) => bytes,
        };
        let mut i: usize = 0;
        while i < bytes.len()
            invariant
                i <= bytes.len(),
                value == Some(bytes),
                forall|j: int| 0 <= j < i ==> is_visible_ascii(#[trigger] bytes@[j]),
            decreases bytes.len() - i,
        {
            let byte: u8 = bytes[i];
            if !((32 <= byte && byte < 127) || byte == 9) {
                assert(!is_visible_ascii(bytes@[i as int]));
                return AuthorizationHeader::NotText;
            }
            i += 1;
        }
        proof {
            lemma_ascii_is_utf8(bytes@);
        }
        match string_from_utf8(slice_to_vec(bytes)) {
            Some(text) => AuthorizationHeader::Text(text),
            None => AuthorizationHeader::NotText,
        }
    }
}

/// What verifying a request's header under a secret yields.
pub open spec fn header_outcome(header: AuthorizationHeader, secret: Seq<char>) -> Result<
    ClaimsView,
    AuthErrorView,
> {
    match header {
        AuthorizationHeader::Missing => validated(None, secret),
        AuthorizationHeader::NotText => Err(AuthErrorView::InvalidHeader),
        AuthorizationHeader::Text(value) => validated(Some(value@), secret),
    }
}

/// Makes the interceptor that verifies tokens.
#[derive(Debug, Clone, Copy, PartialEq, Eq)]
pub struct JwtAuth;

/// The interceptor that verifies a request's token.
#[derive(Debug, Clone, Copy, PartialEq, Eq)]
pub struct JwtAuthMiddleware;

/// Makes the interceptor that insists on claims.
#[derive(Debug, Clone, Copy, PartialEq, Eq)]
pub struct RequireAuth;

/// The interceptor that lets only established senders pass.
#[derive(Debug, Clone, Copy, PartialEq, Eq)]
pub struct RequireAuthMiddleware;

impl JwtAuth {
    /// The interceptor, ready to be put before a service.
    pub fn new_transform(&self) -> JwtAuthMiddleware {
        JwtAuthMiddleware
    }
}

impl RequireAuth {
    /// The interceptor, ready to be put before a service.
    pub fn new_transform(&self) -> RequireAuthMiddleware {
        RequireAuthMiddleware
    }
}

/// What the first interceptor does to a context, and whether the request
/// passes.
pub open spec fn token_check(
    context: Option<ClaimsView>,
    header: AuthorizationHeader,
    secret: Seq<char>,
) -> (Option<ClaimsView>, Result<(), AppErrorView>) {
    match header_outcome(header, secret) {
        Ok(claims) => (Some(claims), Ok(())),
        Err(error) => (context, Err(error.app_error())),
    }
}

/// What the second interceptor answers to a context.
pub open spec fn presence_check(context: Option<ClaimsView>) -> Result<(), AppErrorView> {
    if context is Some {
        Ok(())
    } else {
        Err(AppErrorView::Unauthorized("Authentication required"@))
    }
}

/// The content of an interceptor's answer.
pub open spec fn answer_view(answer: Result<(), AppError>) -> Result<(), AppErrorView> {
    match answer {
        Ok(()) => Ok(()),
        Err(error) => Err(error@),
    }
}

impl JwtAuthMiddleware {
    /// Verifies the token in the request's header under the service's
    /// secret. On success the token's claims are written to the context and
    /// the request passes; on failure the context stays as it was and the
    /// request is answered with the error.
    pub fn call(
        &self,
        context: &mut RequestContext,
        header: &AuthorizationHeader,
        secret: &str,
    ) -> (answer: Result<(), AppError>)
        ensures
            (final(context)@, answer_view(answer)) == token_check(old(context)@, *header, secret@),
    {
        let outcome = match header {
            AuthorizationHeader::Missing => validate(None, secret),
            AuthorizationHeader::NotText => Err(AuthError::InvalidHeader),
            AuthorizationHeader::Text(value) => validate(Some(value.as_str()), secret),
        };
        match outcome {
            Ok(claims) => {
                context.claims = Some(claims);
                Ok(())
            },
            Err(error) => Err(error.into_app_error()),
        }
    }
}

/// Lets a request pass if and only if its context holds claims. The context
/// is only read; the request's method, path and headers play no part.
pub fn enforce(context: &RequestContext) -> (answer: Result<(), AppError>)
    ensures
        answer_view(answer) == presence_check(context@),
        context@ is None ==> (answer matches Err(error) && error@ == AppErrorView::Unauthorized(
            "Authentication required"@,
        )),
        context@ is Some ==> answer is Ok,
{
    if context.has_claims() {
        Ok(())
    } else {
        Err(AppError::Unauthorized(String::from_str("Authentication required")))
    }
}

impl RequireAuthMiddleware {
    /// Lets the request pass if and only if its context holds claims.
    pub fn call(&self, context: &RequestContext) -> (answer: Result<(), AppError>)
        ensures
            answer_view(answer) == presence_check(context@),
    {
        enforce(context)
    }
}

/// An interceptor of either kind, as a member of a chain.
#[derive(Debug, Clone, Copy, PartialEq, Eq)]
pub enum Interceptor {
    Jwt(JwtAuthMiddleware),
    Require(RequireAuthMiddleware),
}

/// What a chain of interceptors, passed in order, does to a context, and
/// whether the request passes all of them. The first interceptor that refuses
/// ends the run.
pub open spec fn chain_outcome(
    chain: Seq<Interceptor>,
    context: Option<ClaimsView>,
    header: AuthorizationHeader,
    secret: Seq<char>,
) -> (Option<ClaimsView>, Result<(), AppErrorView>)
    decreases chain.len(),
{
    if chain.len() == 0 {
        (context, Ok(()))
    } else {
        let (after, answer) = match chain.first() {
            Interceptor::Jwt(_) => token_check(context, header, secret),
            Interceptor::Require(_) => (context, presence_check(context)),
        };
        if answer is Ok {
            chain_outcome(chain.drop_first(), after, header, secret)
        } else {
            (after, answer)
        }
    }
}

/// Passes a request through a chain of interceptors, in order, until one
/// refuses.
pub fn intercept(
    chain: &Vec<Interceptor>,
    context: &mut RequestContext,
    header: &AuthorizationHeader,
    secret: &str,
) -> (answer: Result<(), AppError>)
    ensures
        (final(context)@, answer_view(answer)) == chain_outcome(
            chain@,
            old(context)@,
            *header,
            secret@,
        ),
{
    let mut i: usize = 0;
    assert(chain@.skip(0) =~= chain@);
    while i < chain.len()
        invariant
            i <= chain.len(),
            chain_outcome(chain@, old(context)@, *header, secret@) == chain_outcome(
                chain@.skip(i as int),
                context@,
                *header,
                secret@,
            ),
        decreases chain.len() - i,
    {
        let ghost rest = chain@.skip(i as int);
        assert(rest.first() == chain@[i as int]);
        assert(rest.drop_first() == chain@.skip(i + 1));
        let answer = match &chain[i] {
            Interceptor::Jwt(stage) => stage.call(context, header, secret),
            Interceptor::Require(stage) => stage.call(context),
        };
        if answer.is_err() {
            return answer;
        }
        i += 1;
    }
    Ok(())
}

/// The chain that guards the service's protected routes: verify the token,
/// then insist on claims.
pub fn protected_chain() -> (chain: Vec<Interceptor>)
    ensures
        chain@ == seq![
            Interceptor::Jwt(JwtAuthMiddleware),
            Interceptor::Require(RequireAuthMiddleware),
        ],
{
    let mut chain: Vec<Interceptor> = Vec::new();
    chain.push(Interceptor::Jwt(JwtAuth.new_transform()));
    chain.push(Interceptor::Require(RequireAuth.new_transform()));
    chain
}

/// A request whose header value does not begin with `Bearer ` is answered
/// as a bad request, whatever the secret, and its context stays as it was.
pub proof fn lemma_malformed_header_is_bad_request(
    context: Option<ClaimsView>,
    value: String,
    secret: Seq<char>,
)
    requires
        !crate::token::BEARER_PREFIX@.is_prefix_of(value@),
    ensures
        token_check(context, AuthorizationHeader::Text(value), secret) == (
            context,
            Err::<(), AppErrorView>(AppErrorView::BadRequest("Invalid token format"@)),
        ),
        AppErrorView::BadRequest("Invalid token format"@).status_code() == 400,
{
}

/// The second interceptor refuses every request whose context is empty,
/// whatever header the request carries and whatever the secret is, and
/// leaves the context empty.
pub proof fn lemma_enforce_rejects_empty_context(header: AuthorizationHeader, secret: Seq<char>)
    ensures
        presence_check(None) == Err::<(), AppErrorView>(
            AppErrorView::Unauthorized("Authentication required"@),
        ),
        chain_outcome(
            seq![Interceptor::Require(RequireAuthMiddleware)],
            None,
            header,
            secret,
        ) == (
            None::<ClaimsView>,
            Err::<(), AppErrorView>(AppErrorView::Unauthorized("Authentication required"@)),
        ),
{
}

/// The second interceptor is independent of the first: on a context that
/// holds claims it passes, however the claims got there.
pub proof fn lemma_enforce_accepts_any_claims(claims: ClaimsView)
    ensures
        presence_check(Some(claims)) == Ok::<(), AppErrorView>(()),
{
}

/// On a fresh context the protected chain passes a request exactly when its
/// token verifies, and then the context holds the token's claims.
pub proof fn lemma_protected_chain(header: AuthorizationHeader, secret: Seq<char>)
    ensures
        chain_outcome(
            seq![
                Interceptor::Jwt(JwtAuthMiddleware),
                Interceptor::Require(RequireAuthMiddleware),
            ],
            None,
            header,
            secret,
        ) == match header_outcome(header, secret) {
            Ok(claims) => (Some(claims), Ok::<(), AppErrorView>(())),
            Err(error) => (None::<ClaimsView>, Err::<(), AppErrorView>(error.app_error())),
        },
{
    let chain = seq![
        Interceptor::Jwt(JwtAuthMiddleware),
        Interceptor::Require(RequireAuthMiddleware),
    ];
    let tail = chain.drop_first();
    assert(tail =~= seq![Interceptor::Require(RequireAuthMiddleware)]);
    assert(tail.drop_first() =~= Seq::<Interceptor>::empty());
    reveal_with_fuel(chain_outcome, 4);
}

/// With the two interceptors the other way round, every request on a fresh
/// context is refused before its token is looked at.
pub proof fn lemma_order_matters(header: AuthorizationHeader, secret: Seq<char>)
    ensures
        chain_outcome(
            seq![
                Interceptor::Require(RequireAuthMiddleware),
                Interceptor::Jwt(JwtAuthMiddleware),
            ],
            None,
            header,
            secret,
        ) == (
            None::<ClaimsView>,
            Err::<(), AppErrorView>(AppErrorView::Unauthorized("Authentication required"@)),
        ),
{
}

/// The user on whose behalf a request runs: the subject of its claims, read
/// as a UUID.
pub open spec fn user_of(context: Option<ClaimsView>) -> Result<u128, AppErrorView> {
    match context {
        None => Err(AppErrorView::Unauthorized("Missing authentication"@)),
        Some(claims) => match uuid_parsed(claims.sub) {
            Ok(id) => Ok(id),
            Err(diagnostic) => Err(AppErrorView::BadRequest("Invalid UUID: "@ + diagnostic)),
        },
    }
}

/// The content of an identified user, or of the error in its place.
pub open spec fn user_view(user: Result<u128, AppError>) -> Result<u128, AppErrorView> {
    match user {
        Ok(id) => Ok(id),
        Err(error) => Err(error@),
    }
}

/// The user that a subject stands for, from the outcome of parsing it.
pub fn user_from_parsed(parsed: Result<u128, String>) -> (user: Result<u128, AppError>)
    ensures
        user_view(user) == match parsed {
            Ok(id) => Ok::<u128, AppErrorView>(id),
            Err(diagnostic) => Err(AppErrorView::BadRequest("Invalid UUID: "@ + diagnostic@)),
        },
{
    match parsed {
        Ok(id) => Ok(id),
        Err(diagnostic) => Err(AppError::from_uuid(diagnostic.as_str())),
    }
}

/// The user on whose behalf a request runs. A handler asks this first: a
/// request without claims is unauthorized, and one whose subject is no UUID
/// is a bad request.
pub fn authenticated_user(context: &RequestContext) -> (user: Result<u128, AppError>)
    ensures
        user_view(user) == user_of(context@),
{
    match context.claims() {
        None => Err(AppError::Unauthorized(String::from_str("Missing authentication"))),
        Some(claims) => user_from_parsed(parse_uuid(claims.sub.as_str())),
    }
}

} // verus!
