//! The values that travel between the service and its clients.

use vstd::prelude::*;

verus! {

/// What a client sends to log in.
#[derive(Debug, Clone, PartialEq, Eq)]
pub struct LoginRequest {
    pub email: String,
    pub password: String,
}

/// The answer to a successful login: a signed token.
#[derive(Debug, Clone, PartialEq, Eq)]
pub struct LoginResponse {
    pub token: String,
}

/// The answer to a stored upload: where the image can be fetched.
#[derive(Debug, Clone, PartialEq, Eq)]
pub struct UploadResponse {
    pub image_url: String,
}

/// The payload of a token: whom it was issued to, and the Unix time at which
/// it nominally expires.
#[derive(Debug, Clone, PartialEq, Eq)]
pub struct Claims {
    pub sub: String,
    pub exp: usize,
}

/// The mathematical content of [`Claims`].
pub struct ClaimsView {
    pub sub: Seq<char>,
    pub exp: nat,
}

impl View for Claims {
    type V = ClaimsView;

    open spec fn view(&self) -> ClaimsView {
        ClaimsView { sub: self.sub@, exp: self.exp as nat }
    }
}

} // verus!
