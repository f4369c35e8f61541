//! Error taxonomy of the core and its mapping to HTTP status codes.

use vstd::prelude::*;

verus! {

/// The kinds of failure the core distinguishes. Internal causes are
/// kept apart from credential mismatches so that the boundary can show
/// different messages, while presenting rejections identically in shape.
#[derive(Clone, Copy, Debug, PartialEq, Eq, Structural)]
pub enum ErrorKind {
    /// The request carries no usable `Authorization: Bearer` header.
    MissingCredential,
    /// A token (or another input) is structurally unacceptable.
    Malformed,
    /// A well-formed token that no logged-in user currently holds.
    Unauthenticated,
    /// A token whose signature is good but whose validity window passed.
    Expired,
    /// A password that does not match the stored hash.
    InvalidCredential,
    /// A uniqueness constraint (username) was violated.
    Conflict,
    /// The addressed record does not exist.
    NotFound,
    /// A failure of the machinery itself; never detailed to callers.
    InternalError,
}

/// An error as handed to the HTTP boundary: a kind plus a short message.
/// The message never carries internal causes verbatim.
#[derive(Debug)]
pub struct ApiError {
    pub kind: ErrorKind,
    pub message: String,
}

impl ApiError {
    /// Build an error of the given kind with the given message.
    pub fn new(kind: ErrorKind, message: &str) -> (r: ApiError)
        ensures
            r.kind == kind,
            r.message@ == message@,
    {
        ApiError { kind, message: message.to_owned() }
    }

    /// The HTTP status code that carries this error kind across the
    /// boundary.
    pub fn status_code(&self) -> (r: u16)
        ensures
            r == status_of(self.kind),
    {
        match self.kind {
            ErrorKind::MissingCredential => 400,
            ErrorKind::Malformed => 401,
            ErrorKind::Unauthenticated => 401,
            ErrorKind::Expired => 401,
            ErrorKind::InvalidCredential => 401,
            ErrorKind::Conflict => 409,
            ErrorKind::NotFound => 404,
            ErrorKind::InternalError => 500,
        }
    }
}

/// The status code of each error kind: bad requests are 400, failed
/// authentication in any flavour is 401, and internal causes are 500.
pub open spec fn status_of(kind: ErrorKind) -> u16 {
    match kind {
        ErrorKind::MissingCredential => 400u16,
        ErrorKind::Malformed => 401u16,
        ErrorKind::Unauthenticated => 401u16,
        ErrorKind::Expired => 401u16,
        ErrorKind::InvalidCredential => 401u16,
        ErrorKind::Conflict => 409u16,
        ErrorKind::NotFound => 404u16,
        ErrorKind::InternalError => 500u16,
    }
}

} // verus!
