//! The errors of the service, and what a client gets to see of them.

use crate::text::join;
use vstd::prelude::*;
use vstd::string::StringExecFns;

verus! {

/// An error as it leaves the service: one of three kinds, each with a
/// diagnostic message.
#[derive(Debug, Clone, PartialEq, Eq)]
pub enum AppError {
    /// A failure of the service's own infrastructure. The message is for
    /// internal use and never sent to the client.
    InternalServerError(String),
    /// A defect in what the client sent.
    BadRequest(String),
    /// A missing or unusable credential.
    Unauthorized(String),
}

/// The mathematical content of an [`AppError`].
pub enum AppErrorView {
    InternalServerError(Seq<char>),
    BadRequest(Seq<char>),
    Unauthorized(Seq<char>),
}

impl View for AppError {
    type V = AppErrorView;

    open spec fn view(&self) -> AppErrorView {
        match self {
            AppError::InternalServerError(m) => AppErrorView::InternalServerError(m@),
            AppError::BadRequest(m) => AppErrorView::BadRequest(m@),
            AppError::Unauthorized(m) => AppErrorView::Unauthorized(m@),
        }
    }
}

impl AppErrorView {
    /// The HTTP status that answers a request which ended in this error.
    pub open spec fn status_code(self) -> int {
        match self {
            AppErrorView::InternalServerError(_) => 500,
            AppErrorView::BadRequest(_) => 400,
            AppErrorView::Unauthorized(_) => 401,
        }
    }

    /// The message sent to the client: the diagnostic of a bad request or of
    /// a refused credential, and a fixed text for an internal failure.
    pub open spec fn client_message(self) -> Seq<char> {
        match self {
            AppErrorView::InternalServerError(_) => "Internal Server Error"@,
            AppErrorView::BadRequest(m) => m,
            AppErrorView::Unauthorized(m) => m,
        }
    }

    /// The error written out as one line of text.
    pub open spec fn text(self) -> Seq<char> {
        match self {
            AppErrorView::InternalServerError(_) => "Internal Server Error"@,
            AppErrorView::BadRequest(m) => "Bad Request: "@ + m,
            AppErrorView::Unauthorized(m) => "Unauthorized: "@ + m,
        }
    }
}

impl AppError {
    /// The HTTP status that answers a request which ended in this error.
    pub fn status_code(&self) -> (code: u16)
        ensures
            code == self@.status_code(),
    {
        match self {
            AppError::InternalServerError(_) => 500,
            AppError::BadRequest(_) => 400,
            AppError::Unauthorized(_) => 401,
        }
    }

    /// The message sent to the client. The diagnostic of an internal failure
    /// is withheld.
    pub fn client_message(&self) -> (message: String)
        ensures
            message@ == self@.client_message(),
    {
        match self {
            AppError::InternalServerError(_) => String::from_str("Internal Server Error"),
            AppError::BadRequest(m) => m.clone(),
            AppError::Unauthorized(m) => m.clone(),
        }
    }

    /// The error written out as one line of text.
    pub fn to_text(&self) -> (line: String)
        ensures
            line@ == self@.text(),
    {
        match self {
            AppError::InternalServerError(_) => String::from_str("Internal Server Error"),
            AppError::BadRequest(m) => join("Bad Request: ", m.as_str()),
            AppError::Unauthorized(m) => join("Unauthorized: ", m.as_str()),
        }
    }

    /// The error for a failure of the database, from its diagnostic.
    pub fn from_database(diagnostic: &str) -> (error: AppError)
        ensures
            error@ == AppErrorView::InternalServerError(diagnostic@),
    {
        AppError::InternalServerError(String::from_str(diagnostic))
    }

    /// The error for an identifier that is no UUID, from the parser's
    /// diagnostic.
    pub fn from_uuid(diagnostic: &str) -> (error: AppError)
        ensures
            error@ == AppErrorView::BadRequest("Invalid UUID: "@ + diagnostic@),
    {
        AppError::BadRequest(join("Invalid UUID: ", diagnostic))
    }

    /// The error for a failed read or write, from its diagnostic.
    pub fn from_io(diagnostic: &str) -> (error: AppError)
        ensures
            error@ == AppErrorView::InternalServerError("IO Error: "@ + diagnostic@),
    {
        AppError::InternalServerError(join("IO Error: ", diagnostic))
    }

    /// The error for a token that could not be signed or read, from the
    /// diagnostic of the token library.
    pub fn from_jwt(diagnostic: &str) -> (error: AppError)
        ensures
            error@ == AppErrorView::Unauthorized("JWT Error: "@ + diagnostic@),
    {
        AppError::Unauthorized(join("JWT Error: ", diagnostic))
    }

    /// The error for a multipart body that could not be read, from the
    /// diagnostic of the reader.
    pub fn from_multipart(diagnostic: &str) -> (error: AppError)
        ensures
            error@ == AppErrorView::BadRequest("Multipart Error: "@ + diagnostic@),
    {
        AppError::BadRequest(join("Multipart Error: ", diagnostic))
    }

    /// The error for bytes that are no UTF-8 text, from the decoder's
    /// diagnostic.
    pub fn from_utf8(diagnostic: &str) -> (error: AppError)
        ensures
            error@ == AppErrorView::BadRequest("Invalid UTF-8 data: "@ + diagnostic@),
    {
        AppError::BadRequest(join("Invalid UTF-8 data: ", diagnostic))
    }
}

/// Why a request's credential was not accepted.
#[derive(Debug, Clone, PartialEq, Eq)]
pub enum AuthError {
    /// The request has no `Authorization` header.
    MissingAuth,
    /// The header's value is not text.
    InvalidHeader,
    /// The header's value does not begin with `Bearer `.
    InvalidFormat,
    /// The token is malformed, or not signed with the service's secret. The
    /// message is a diagnostic.
    Unauthorized(String),
}

/// The mathematical content of an [`AuthError`].
pub enum AuthErrorView {
    MissingAuth,
    InvalidHeader,
    InvalidFormat,
    Unauthorized(Seq<char>),
}

impl View for AuthError {
    type V = AuthErrorView;

    open spec fn view(&self) -> AuthErrorView {
        match self {
            AuthError::MissingAuth => AuthErrorView::MissingAuth,
            AuthError::InvalidHeader => AuthErrorView::InvalidHeader,
            AuthError::InvalidFormat => AuthErrorView::InvalidFormat,
            AuthError::Unauthorized(m) => AuthErrorView::Unauthorized(m@),
        }
    }
}

impl AuthErrorView {
    /// The error that the service answers with. A header value of the
    /// wrong form is a defect of the request, so it is a bad request; every
    /// other refusal of a credential is of the kind `Unauthorized`.
    pub open spec fn app_error(self) -> AppErrorView {
        match self {
            AuthErrorView::MissingAuth => AppErrorView::Unauthorized(
                "Missing authorization header"@,
            ),
            AuthErrorView::InvalidHeader => AppErrorView::Unauthorized(
                "Invalid authorization header"@,
            ),
            AuthErrorView::InvalidFormat => AppErrorView::BadRequest("Invalid token format"@),
            AuthErrorView::Unauthorized(m) => AppErrorView::Unauthorized(m),
        }
    }
}

impl AuthError {
    /// The error that the service answers with: status 400 for a header
    /// value of the wrong form, 401 for every other refusal.
    pub fn into_app_error(self) -> (error: AppError)
        ensures
            error@ == self@.app_error(),
            self is InvalidFormat ==> error@.status_code() == 400,
            !(self is InvalidFormat) ==> error@.status_code() == 401,
    {
        match self {
            AuthError::MissingAuth => AppError::Unauthorized(
                String::from_str("Missing authorization header"),
            ),
            AuthError::InvalidHeader => AppError::Unauthorized(
                String::from_str("Invalid authorization header"),
            ),
            AuthError::InvalidFormat => AppError::BadRequest(
                String::from_str("Invalid token format"),
            ),
            AuthError::Unauthorized(m) => AppError::Unauthorized(m),
        }
    }
}

/// A field that every submission must carry.
#[derive(Debug, Clone, Copy, PartialEq, Eq, Structural)]
pub enum RequiredField {
    Text,
    Date,
}

/// What is wrong with a submission that the client has to mend.
#[derive(Debug, Clone, PartialEq, Eq)]
pub enum BadRequest {
    /// A part of the body does not say what it is called.
    FieldNameMissing,
    /// The bytes of the `text` field are no UTF-8 text.
    InvalidUtf8,
    /// The `date` field is no UTF-8 text, or no date written `YYYY-MM-DD`.
    InvalidDate,
    /// The body ended without this field.
    MissingField(RequiredField),
    /// The attachment's file name is not that of an image.
    NotAnImage,
    /// The body ended without an attachment where one is required.
    NoImage,
    /// The body could not be read as multipart data. The message is the
    /// reader's diagnostic.
    Malformed(String),
}

/// The mathematical content of a [`BadRequest`].
pub enum BadRequestView {
    FieldNameMissing,
    InvalidUtf8,
    InvalidDate,
    MissingField(RequiredField),
    NotAnImage,
    NoImage,
    Malformed(Seq<char>),
}

impl View for BadRequest {
    type V = BadRequestView;

    open spec fn view(&self) -> BadRequestView {
        match self {
            BadRequest::FieldNameMissing => BadRequestView::FieldNameMissing,
            BadRequest::InvalidUtf8 => BadRequestView::InvalidUtf8,
            BadRequest::InvalidDate => BadRequestView::InvalidDate,
            BadRequest::MissingField(f) => BadRequestView::MissingField(*f),
            BadRequest::NotAnImage => BadRequestView::NotAnImage,
            BadRequest::NoImage => BadRequestView::NoImage,
            BadRequest::Malformed(m) => BadRequestView::Malformed(m@),
        }
    }
}

impl BadRequestView {
    /// The message that tells the client what to mend.
    pub open spec fn message(self) -> Seq<char> {
        match self {
            BadRequestView::FieldNameMissing => "Field name not found"@,
            BadRequestView::InvalidUtf8 => "Invalid UTF-8 data"@,
            BadRequestView::InvalidDate => "Invalid date format, use YYYY-MM-DD"@,
            BadRequestView::MissingField(RequiredField::Text) => "Missing text field"@,
            BadRequestView::MissingField(RequiredField::Date) => "Missing date field"@,
            BadRequestView::NotAnImage => "File must be an image"@,
            BadRequestView::NoImage => "No image found in request"@,
            BadRequestView::Malformed(m) => "Multipart Error: "@ + m,
        }
    }
}

impl BadRequest {
    /// The message that tells the client what to mend.
    pub fn message(&self) -> (message: String)
        ensures
            message@ == self@.message(),
    {
        match self {
            BadRequest::FieldNameMissing => String::from_str("Field name not found"),
            BadRequest::InvalidUtf8 => String::from_str("Invalid UTF-8 data"),
            BadRequest::InvalidDate => String::from_str("Invalid date format, use YYYY-MM-DD"),
            BadRequest::MissingField(RequiredField::Text) => String::from_str(
                "Missing text field",
            ),
            BadRequest::MissingField(RequiredField::Date) => String::from_str(
                "Missing date field",
            ),
            BadRequest::NotAnImage => String::from_str("File must be an image"),
            BadRequest::NoImage => String::from_str("No image found in request"),
            BadRequest::Malformed(m) => join("Multipart Error: ", m.as_str()),
        }
    }
}

/// Why a submission was not taken in.
#[derive(Debug, Clone, PartialEq, Eq)]
pub enum IngestError {
    /// The client sent something unusable.
    BadRequest(BadRequest),
    /// The attachment could not be stored. The message is the diagnostic of
    /// the storage, for internal use.
    InternalError(String),
}

/// The mathematical content of an [`IngestError`].
pub enum IngestErrorView {
    BadRequest(BadRequestView),
    InternalError(Seq<char>),
}

impl View for IngestError {
    type V = IngestErrorView;

    open spec fn view(&self) -> IngestErrorView {
        match self {
            IngestError::BadRequest(b) => IngestErrorView::BadRequest(b@),
            IngestError::InternalError(m) => IngestErrorView::InternalError(m@),
        }
    }
}

impl IngestErrorView {
    /// The error that the service answers with.
    pub open spec fn app_error(self) -> AppErrorView {
        match self {
            IngestErrorView::BadRequest(b) => AppErrorView::BadRequest(b.message()),
            IngestErrorView::InternalError(m) => AppErrorView::InternalServerError(
                "IO Error: "@ + m,
            ),
        }
    }
}

impl IngestError {
    /// The error that the service answers with.
    pub fn into_app_error(self) -> (error: AppError)
        ensures
            error@ == self@.app_error(),
    {
        match self {
            IngestError::BadRequest(b) => AppError::BadRequest(b.message()),
            IngestError::InternalError(m) => AppError::from_io(m.as_str()),
        }
    }
}

} // verus!
