//! What a handler answers: a status, the kind of error if there is one, and
//! a message.

use vstd::prelude::*;

verus! {

/// The greeting of the service.
pub const WELCOME: &'static str = "Welcome to Arrively API!";

/// The HTTP statuses that a handler of this service answers with.
#[derive(Clone, Copy, Debug, PartialEq, Eq, Structural)]
pub enum Status {
    Success,
    Created,
    BadRequest,
    Unauthorized,
    NotFound,
    Conflict,
    InternalServerError,
}

/// The kinds of error that a request can end in.
#[derive(Clone, Copy, Debug, PartialEq, Eq, Structural)]
pub enum ErrorKind {
    /// A field of the request is malformed, or names what does not exist.
    ValidationError,
    /// The request would make a second row where only one may be.
    ConflictError,
    /// The row that the request names is not there.
    NotFoundError,
    /// The request carries no token, or one that is not accepted.
    InvalidToken,
    /// The request names no user, or not the password of that user.
    InvalidCredentials,
    /// A token could not be signed.
    SigningError,
    /// A password could not be hashed or checked.
    HashingError,
    /// The database could not be reached, or failed; the kind of every
    /// failure of the service that has no kind of its own.
    DatabaseError,
}

/// The answer to a request.
#[derive(Debug)]
pub struct Reply {
    pub status: Status,
    /// `None` where the request was served.
    pub error: Option<ErrorKind>,
    /// The message of a success or the reason of an error; empty where the
    /// body is the data that was asked for.
    pub message: String,
}

/// An error that is answered as an internal error with its message.
#[derive(Debug)]
pub struct AppError {
    pub message: String,
}

impl Status {
    /// The numeric code of the status.
    pub open spec fn code_spec(self) -> u16 {
        match self {
            Status::Success => 200,
            Status::Created => 201,
            Status::BadRequest => 400,
            Status::Unauthorized => 401,
            Status::NotFound => 404,
            Status::Conflict => 409,
            Status::InternalServerError => 500,
        }
    }

    /// The numeric code of the status.
    pub fn code(&self) -> (c: u16)
        ensures
            c == self.code_spec(),
    {
        match self {
            Status::Success => 200,
            Status::Created => 201,
            Status::BadRequest => 400,
            Status::Unauthorized => 401,
            Status::NotFound => 404,
            Status::Conflict => 409,
            Status::InternalServerError => 500,
        }
    }

    /// Whether the status says that the request was served.
    pub open spec fn is_success(self) -> bool {
        self == Status::Success || self == Status::Created
    }
}

impl ErrorKind {
    /// The status that an error of this kind is answered with: what the
    /// client got wrong is a 4xx of its own, what failed here is a 500.
    pub open spec fn status_spec(self) -> Status {
        match self {
            ErrorKind::ValidationError => Status::BadRequest,
            ErrorKind::ConflictError => Status::Conflict,
            ErrorKind::NotFoundError => Status::NotFound,
            ErrorKind::InvalidToken => Status::Unauthorized,
            ErrorKind::InvalidCredentials => Status::Unauthorized,
            ErrorKind::SigningError => Status::InternalServerError,
            ErrorKind::HashingError => Status::InternalServerError,
            ErrorKind::DatabaseError => Status::InternalServerError,
        }
    }

    /// The status that an error of this kind is answered with.
    pub fn status(&self) -> (s: Status)
        ensures
            s == self.status_spec(),
    {
        match self {
            ErrorKind::ValidationError => Status::BadRequest,
            ErrorKind::ConflictError => Status::Conflict,
            ErrorKind::NotFoundError => Status::NotFound,
            ErrorKind::InvalidToken => Status::Unauthorized,
            ErrorKind::InvalidCredentials => Status::Unauthorized,
            ErrorKind::SigningError => Status::InternalServerError,
            ErrorKind::HashingError => Status::InternalServerError,
            ErrorKind::DatabaseError => Status::InternalServerError,
        }
    }
}

impl Reply {
    /// The status fits the outcome: an error has the status of its kind,
    /// and only a request that was served has a status of success.
    pub open spec fn wf(&self) -> bool {
        match self.error {
            Some(kind) => self.status == kind.status_spec(),
            None => self.status.is_success(),
        }
    }

    /// This is the answer 200 with `message`.
    pub open spec fn is_ok(&self, message: Seq<char>) -> bool {
        self.status == Status::Success && self.error is None && self.message@ == message
    }

    /// This is the answer 201 with `message`.
    pub open spec fn is_created(&self, message: Seq<char>) -> bool {
        self.status == Status::Created && self.error is None && self.message@ == message
    }

    /// This is the answer to an error of `kind`, with `message` as reason.
    pub open spec fn is_failure(&self, kind: ErrorKind, message: Seq<char>) -> bool {
        self.status == kind.status_spec() && self.error == Some(kind) && self.message@ == message
    }

    /// Answers 200 with the data that was asked for, and no message.
    pub fn data() -> (r: Reply)
        ensures
            r.is_ok(Seq::<char>::empty()),
            r.wf(),
    {
        Reply { status: Status::Success, error: None, message: String::new() }
    }

    /// Answers 200 with `message`.
    pub fn ok(message: &str) -> (r: Reply)
        ensures
            r.is_ok(message@),
            r.wf(),
    {
        Reply { status: Status::Success, error: None, message: message.to_owned() }
    }

    /// Answers 201 with the row that was made, and no message.
    pub fn made() -> (r: Reply)
        ensures
            r.is_created(Seq::<char>::empty()),
            r.wf(),
    {
        Reply { status: Status::Created, error: None, message: String::new() }
    }

    /// Answers 201 with `message`.
    pub fn created(message: &str) -> (r: Reply)
        ensures
            r.is_created(message@),
            r.wf(),
    {
        Reply { status: Status::Created, error: None, message: message.to_owned() }
    }

    /// Answers an error of `kind` with the status of that kind.
    pub fn failure(kind: ErrorKind, message: &str) -> (r: Reply)
        ensures
            r.is_failure(kind, message@),
            r.wf(),
    {
        Reply { status: kind.status(), error: Some(kind), message: message.to_owned() }
    }
}

impl AppError {
    /// The answer to this error: an internal error of the catch-all kind
    /// that carries its message.
    pub fn error_response(&self) -> (r: Reply)
        ensures
            r.is_failure(ErrorKind::DatabaseError, self.message@),
            r.wf(),
    {
        Reply::failure(ErrorKind::DatabaseError, self.message.as_str())
    }

    /// The text of this error.
    pub fn to_string(&self) -> (s: String)
        ensures
            s@ == self.message@,
    {
        self.message.clone()
    }
}

/// The answer to a request for the root of the service.
pub fn index() -> (r: Reply)
    ensures
        r.is_ok(WELCOME@),
        r.wf(),
{
    Reply::ok(WELCOME)
}

/// A 5xx is answered to failures of this service only, a 4xx to what the
/// client got wrong, and no error is answered with a status of success.
pub proof fn lemma_status_of_kind(kind: ErrorKind)
    ensures
        !kind.status_spec().is_success(),
        400 <= kind.status_spec().code_spec() <= 500,
        kind.status_spec().code_spec() == 500 <==> (kind == ErrorKind::SigningError || kind
            == ErrorKind::HashingError || kind == ErrorKind::DatabaseError),
{
}

} // verus!
