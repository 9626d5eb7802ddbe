//! What each request amounts to, for a body that is already in memory.
//!
//! A handler first establishes the user, then takes the body in. What is
//! left to the caller is the write of an accepted attachment and the
//! database.

use crate::attachment::is_fresh_id;
use crate::error::{AppError, AppErrorView, BadRequest, BadRequestView, IngestError};
use crate::ingest::{
    collect, field_views, ingest, ingest_upload, initial, submission_of, upload_of,
    wants_storage, Assembled, AssembledView, Intake, MultipartField, PendingUpload,
    PendingUploadView, SUBMISSION_PREFIX, UPLOAD_PREFIX,
};
use crate::login::{
    check_credentials, credentials_accepted, expiration_fits, issue_claims, issue_token,
    issued_view, jwt_encoded, login_response, token_of, TOKEN_LIFETIME,
};
use crate::middleware::{authenticated_user, user_of, RequestContext};
use crate::models::{LoginRequest, LoginResponse};
use crate::token::{EXPIRY_CLAIM, SUBJECT_CLAIM};
use vstd::prelude::*;

verus! {

/// What a login amounts to, for the identifier that the database holds for
/// the account: the credentials are checked, then a token is signed that
/// names the user and nominally expires 24 hours after `now`.
pub open spec fn login_outcome(
    email: Seq<char>,
    password: Seq<char>,
    user_id: Seq<char>,
    now: int,
    secret: Seq<char>,
) -> Result<Seq<char>, AppErrorView> {
    if !credentials_accepted(email, password) {
        Err(AppErrorView::Unauthorized("Invalid credentials"@))
    } else {
        token_of(
            jwt_encoded(
                SUBJECT_CLAIM@,
                user_id,
                EXPIRY_CLAIM@,
                (now + TOKEN_LIFETIME) as u64,
                secret,
            ),
        )
    }
}

/// The content of a login's outcome.
pub open spec fn login_view(outcome: Result<LoginResponse, AppError>) -> Result<
    Seq<char>,
    AppErrorView,
> {
    match outcome {
        Ok(response) => Ok(response.token@),
        Err(error) => Err(error@),
    }
}

/// Signs the token of a user who has logged in, and wraps it as the answer.
pub fn complete_login(user_id: &str, now: i64, secret: &str) -> (outcome: Result<
    LoginResponse,
    AppError,
>)
    requires
        expiration_fits(now as int),
    ensures
        login_view(outcome) == token_of(
            jwt_encoded(
                SUBJECT_CLAIM@,
                user_id@,
                EXPIRY_CLAIM@,
                (now + TOKEN_LIFETIME) as u64,
                secret@,
            ),
        ),
{
    let claims = issue_claims(user_id, now);
    match issue_token(&claims, secret) {
        Ok(token) => Ok(login_response(token)),
        Err(error) => Err(error),
    }
}

/// Logs a user in, at the Unix time `now`.
pub fn login(request: &LoginRequest, user_id: &str, now: i64, secret: &str) -> (outcome: Result<
    LoginResponse,
    AppError,
>)
    requires
        expiration_fits(now as int),
    ensures
        login_view(outcome) == login_outcome(
            request.email@,
            request.password@,
            user_id@,
            now as int,
            secret@,
        ),
{
    match check_credentials(request) {
        Err(error) => Err(error),
        Ok(()) => complete_login(user_id, now, secret),
    }
}

/// The answer to a body that was refused.
pub open spec fn refused(reason: BadRequestView) -> AppErrorView {
    AppErrorView::BadRequest(reason.message())
}

/// An assembled submission together with its user, or the answer to a body
/// that was refused.
pub open spec fn for_user(user: u128, assembled: Result<AssembledView, BadRequestView>) -> Result<
    (u128, AssembledView),
    AppErrorView,
> {
    match assembled {
        Ok(assembled) => Ok((user, assembled)),
        Err(reason) => Err(refused(reason)),
    }
}

/// Whether `outcome` is what a request to create an entry amounts to. The
/// user is established first, so a request without claims is refused
/// before its body is looked at.
pub open spec fn created(
    context: Option<crate::models::ClaimsView>,
    fields: Seq<MultipartField>,
    outcome: Result<(u128, AssembledView), AppErrorView>,
) -> bool {
    match user_of(context) {
        Err(error) => outcome == Err::<(u128, AssembledView), AppErrorView>(error),
        Ok(user) => match collect(
            Intake::Submission,
            initial(Intake::Submission),
            field_views(fields),
        ) {
            Err(reason) => outcome == Err::<(u128, AssembledView), AppErrorView>(refused(reason)),
            Ok(state) => if wants_storage(state) {
                exists|unique_id: Seq<char>|
                    is_fresh_id(SUBMISSION_PREFIX@, unique_id) && outcome == for_user(
                        user,
                        #[trigger] submission_of(state, unique_id),
                    )
            } else {
                outcome == for_user(user, submission_of(state, Seq::empty()))
            },
        },
    }
}

/// The content of the outcome of creating an entry.
pub open spec fn created_view(outcome: Result<(u128, Assembled), AppError>) -> Result<
    (u128, AssembledView),
    AppErrorView,
> {
    match outcome {
        Ok((user, assembled)) => Ok((user, assembled@)),
        Err(error) => Err(error@),
    }
}

/// Handles a request to create an entry: establishes the user, then takes
/// the submission in.
pub fn create_todo(context: &RequestContext, fields: &Vec<MultipartField>) -> (outcome: Result<
    (u128, Assembled),
    AppError,
>)
    ensures
        created(context@, fields@, created_view(outcome)),
        outcome matches Ok(found) ==> found.1@.submission().date.wf(),
{
    let user = match authenticated_user(context) {
        Ok(user) => user,
        Err(error) => {
            return Err(error);
        },
    };
    match ingest(fields) {
        Ok(assembled) => Ok((user, assembled)),
        Err(reason) => Err(IngestError::BadRequest(reason).into_app_error()),
    }
}

/// Whether `outcome` is what a request to upload an image amounts to.
pub open spec fn uploaded(
    context: Option<crate::models::ClaimsView>,
    fields: Seq<MultipartField>,
    outcome: Result<PendingUploadView, AppErrorView>,
) -> bool {
    match user_of(context) {
        Err(error) => outcome == Err::<PendingUploadView, AppErrorView>(error),
        Ok(_) => match collect(Intake::Upload, initial(Intake::Upload), field_views(fields)) {
            Err(reason) => outcome == Err::<PendingUploadView, AppErrorView>(refused(reason)),
            Ok(state) => if wants_storage(state) {
                exists|unique_id: Seq<char>|
                    is_fresh_id(UPLOAD_PREFIX@, unique_id) && outcome == match #[trigger] upload_of(
                        state,
                        unique_id,
                    ) {
                        Ok(pending) => Ok::<PendingUploadView, AppErrorView>(pending),
                        Err(reason) => Err(refused(reason)),
                    }
            } else {
                outcome == Err::<PendingUploadView, AppErrorView>(refused(BadRequestView::NoImage))
            },
        },
    }
}

/// The content of the outcome of an upload.
pub open spec fn uploaded_view(outcome: Result<PendingUpload, AppError>) -> Result<
    PendingUploadView,
    AppErrorView,
> {
    match outcome {
        Ok(pending) => Ok(pending@),
        Err(error) => Err(error@),
    }
}

/// Handles a request to upload an image: establishes the user, then takes
/// the image in.
pub fn upload_image(context: &RequestContext, fields: &Vec<MultipartField>) -> (outcome: Result<
    PendingUpload,
    AppError,
>)
    ensures
        uploaded(context@, fields@, uploaded_view(outcome)),
{
    match authenticated_user(context) {
        Ok(_) => {},
        Err(error) => {
            return Err(error);
        },
    }
    match ingest_upload(fields) {
        Ok(pending) => Ok(pending),
        Err(reason) => Err(IngestError::BadRequest(reason).into_app_error()),
    }
}

} // verus!
