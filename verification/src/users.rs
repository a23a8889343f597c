//! Users: registration, login, and the list of users behind a token.
//!
//! A registration asks the database three times, and decides between the
//! questions. `Registration` holds the request and how far it has come;
//! `Registration::step` takes the answer to the last question and gives
//! the next question, or the answer to the client. Whoever runs it only
//! carries questions to the database and answers back.

use vstd::prelude::*;
use crate::auth::{current_timestamp, generate_access_token, generate_refresh_token};
use crate::auth::validate_token_at;
use crate::auth::{issued_at_some_moment, validate_spec, AuthTokenClaims, TokenConfig, TokenKind};
use crate::auth::TokenError;
use crate::http::{ErrorKind, Reply};
use crate::password::{hash_password, verify_password, verify_spec};
use crate::password::{is_digest_of, PasswordError};
use crate::store::{Lookup, Written};
use crate::validation::{email_format, is_valid_email, phone_format, validate_phone};

verus! {

pub const INVALID_EMAIL: &'static str = "Invalid email format";

pub const INVALID_PHONE: &'static str = "Invalid phone number format";

pub const EMAIL_EXISTS: &'static str = "Email already exists";

pub const INVALID_CITY: &'static str = "Invalid city ID";

pub const HASH_FAILED: &'static str = "Failed to hash password";

pub const REGISTER_FAILED: &'static str = "Failed to register user";

pub const ACCESS_TOKEN_FAILED: &'static str = "Failed to generate access token";

pub const REFRESH_TOKEN_FAILED: &'static str = "Failed to generate refresh token";

pub const REGISTERED: &'static str = "User registered successfully";

pub const MISSING_TOKEN: &'static str = "Missing token";

pub const INVALID_TOKEN_FORMAT: &'static str = "Invalid token format";

pub const INVALID_TOKEN: &'static str = "Invalid token";

pub const FETCH_USERS_FAILED: &'static str = "Failed to fetch users";

pub const LOGIN_SUCCESSFUL: &'static str = "Login successful";

pub const INVALID_CREDENTIALS: &'static str = "Invalid credentials";

pub const VERIFY_FAILED: &'static str = "Error verifying password";

pub const DATABASE_ERROR: &'static str = "Database error";

/// The scheme that a token is presented under, with the space after it.
pub const BEARER: &'static str = "Bearer ";

/// A request to register a user.
#[derive(Debug)]
pub struct NewUser {
    pub first_name: String,
    pub last_name: String,
    pub email: String,
    pub password: String,
    pub city: i32,
    pub phone_number: String,
}

/// The row of a new user: the request, with the digest of the password in
/// the place of the password.
#[derive(Debug)]
pub struct NewUserRecord {
    pub first_name: String,
    pub last_name: String,
    pub email: String,
    pub password: String,
    pub city: i32,
    pub phone_number: String,
}

/// How far a registration has come.
#[derive(Clone, Copy, Debug, PartialEq, Eq, Structural)]
pub enum Stage {
    /// Nothing was asked yet.
    Start,
    /// The database was asked for a user with the e-mail address.
    CheckingEmail,
    /// The database was asked for the city.
    CheckingCity,
    /// The database was asked to insert the row.
    Saving,
}

/// A registration under way.
#[derive(Debug)]
pub struct Registration {
    request: NewUser,
    stage: Stage,
}

/// A question to the database.
#[derive(Debug)]
pub enum Query {
    /// Is there a user with this e-mail address?
    FindUserByEmail(String),
    /// Is there a city with this id?
    FindCity(i32),
    /// Insert this row.
    InsertUser(NewUserRecord),
}

/// The answer of the database to the last question.
#[derive(Clone, Copy, Debug, PartialEq, Eq, Structural)]
pub enum Answer {
    /// Nothing was asked yet.
    Nothing,
    /// The answer to `FindUserByEmail` or `FindCity`.
    Looked(Lookup),
    /// The answer to `InsertUser`.
    Wrote(Written),
}

/// What a step of a registration gives.
#[derive(Debug)]
pub enum RegisterStep {
    /// Ask the database, and take the step after with its answer.
    Ask(Registration, Query),
    /// The user is registered: answer with this reply, which is 201 with
    /// the message of a registration, and with the two tokens.
    Registered { reply: Reply, access_token: String, refresh_token: String },
    /// Answer the client with this error.
    Refused(Reply),
}

/// The header that a request was authorised with.
#[derive(Debug)]
pub enum AuthHeader {
    /// The request has no such header.
    Missing,
    /// The header is there and is no text.
    Unreadable,
    /// The text of the header.
    Text(String),
}

/// A row of the table of users, as the database holds it.
#[derive(Debug)]
pub struct StoredUser {
    pub id: i32,
    pub first_name: String,
    pub last_name: String,
    pub email: String,
    /// The digest of the password.
    pub password: String,
    pub city: i32,
    pub phone_number: String,
}

/// A user as the list of users shows it: the row without the digest.
#[derive(Debug)]
pub struct ListedUser {
    pub id: i32,
    pub email: String,
    pub first_name: String,
    pub last_name: String,
    pub city: i32,
    pub phone_number: String,
}

/// The answer to the query for all users.
#[derive(Debug)]
pub enum UsersFetched {
    /// The rows, in the order in which the database returned them.
    Rows(Vec<StoredUser>),
    /// The query failed.
    Failed,
}

/// What listing the users does next.
#[derive(Debug)]
pub enum UsersStep {
    /// Ask the database for all users.
    Fetch,
    /// Answer with this reply, which is 200, and with this list.
    Listed { reply: Reply, users: Vec<ListedUser> },
    /// Answer the client with this error.
    Refused(Reply),
}

/// The answer to a query for the stored digest of a user.
#[derive(Debug)]
pub enum Stored {
    /// The user is there, with this digest.
    Found(String),
    /// No such user.
    Missing,
    /// The query failed.
    Failed,
}

/// The token that a header presents: what follows `Bearer `.
pub open spec fn bearer_spec(header: Seq<char>) -> Option<Seq<char>> {
    if header.len() >= 7 && header.subrange(0, 7) == BEARER@ {
        Some(header.subrange(7, header.len() as int))
    } else {
        None
    }
}

/// The token that a header presents, if it presents one.
pub fn bearer_token(header: &str) -> (r: Option<&str>)
    ensures
        match r {
            Some(token) => bearer_spec(header@) == Some(token@),
            None => bearer_spec(header@) is None,
        },
{
    proof {
        reveal_strlit("Bearer ");
    }
    let n = header.unicode_len();
    if n < 7 {
        return None;
    }
    let mut i: usize = 0;
    while i < 7
        invariant
            i <= 7,
            7 <= n,
            n == header@.len(),
            BEARER@.len() == 7,
            forall|k: int| 0 <= k < i ==> header@[k] == BEARER@[k],
        decreases 7 - i,
    {
        if header.get_char(i) != BEARER.get_char(i) {
            return None;
        }
        i += 1;
    }
    assert(header@.subrange(0, 7) =~= BEARER@);
    Some(header.substring_char(7, n))
}

/// What authorising a header at second `now` gives: the claims of the
/// access token that it presents, or the reason why there are none.
pub open spec fn authorized(
    r: Result<AuthTokenClaims, Reply>,
    secret: Seq<u8>,
    header: AuthHeader,
    now: int,
) -> bool {
    match header {
        AuthHeader::Missing => r matches Err(reply) && reply.is_failure(
            ErrorKind::InvalidToken,
            MISSING_TOKEN@,
        ),
        AuthHeader::Unreadable => r matches Err(reply) && reply.is_failure(
            ErrorKind::InvalidToken,
            INVALID_TOKEN_FORMAT@,
        ),
        AuthHeader::Text(text) => match bearer_spec(text@) {
            None => r matches Err(reply) && reply.is_failure(
                ErrorKind::InvalidToken,
                INVALID_TOKEN_FORMAT@,
            ),
            Some(token) => match validate_spec(secret, TokenKind::Access, token, now) {
                Ok(claims) => r matches Ok(found) && found@ == claims,
                Err(_) => r matches Err(reply) && reply.is_failure(
                    ErrorKind::InvalidToken,
                    INVALID_TOKEN@,
                ),
            },
        },
    }
}

/// Authorises a request by its header at second `now`.
pub fn authorize_at(config: &TokenConfig, header: &AuthHeader, now: i64) -> (r: Result<
    AuthTokenClaims,
    Reply,
>)
    ensures
        authorized(r, config.key_spec(TokenKind::Access), *header, now as int),
        r matches Err(reply) ==> reply.wf(),
{
    match header {
        AuthHeader::Missing => Err(Reply::failure(ErrorKind::InvalidToken, MISSING_TOKEN)),
        AuthHeader::Unreadable => Err(
            Reply::failure(ErrorKind::InvalidToken, INVALID_TOKEN_FORMAT),
        ),
        AuthHeader::Text(text) => match bearer_token(text.as_str()) {
            None => Err(Reply::failure(ErrorKind::InvalidToken, INVALID_TOKEN_FORMAT)),
            Some(token) => match validate_token_at(config, TokenKind::Access, token, now) {
                Ok(claims) => Ok(claims),
                Err(_) => Err(Reply::failure(ErrorKind::InvalidToken, INVALID_TOKEN)),
            },
        },
    }
}

/// Authorises a request by its header against the clock.
pub fn authorize(config: &TokenConfig, header: &AuthHeader) -> (r: Result<AuthTokenClaims, Reply>)
    ensures
        exists|now: int|
            0 <= now <= i64::MAX && #[trigger] authorized(
                r,
                config.key_spec(TokenKind::Access),
                *header,
                now,
            ),
        r matches Err(reply) ==> reply.wf(),
{
    let now = current_timestamp();
    let r = authorize_at(config, header, now);
    r
}

/// Why a request with this header is not authorised at second `now`, or
/// `None` where it is: without a header the token is missing, a header
/// that is no text or does not present a token under the scheme has not
/// the format, and a token that validation refuses is invalid.
pub open spec fn refusal(secret: Seq<u8>, header: AuthHeader, now: int) -> Option<Seq<char>> {
    match header {
        AuthHeader::Missing => Some(MISSING_TOKEN@),
        AuthHeader::Unreadable => Some(INVALID_TOKEN_FORMAT@),
        AuthHeader::Text(text) => match bearer_spec(text@) {
            None => Some(INVALID_TOKEN_FORMAT@),
            Some(token) => if validate_spec(secret, TokenKind::Access, token, now) is Ok {
                None
            } else {
                Some(INVALID_TOKEN@)
            },
        },
    }
}

impl ListedUser {
    /// This is `row` as the list shows it: its six fields other than the
    /// digest, unchanged.
    pub open spec fn shows(&self, row: StoredUser) -> bool {
        &&& self.id == row.id
        &&& self.email@ == row.email@
        &&& self.first_name@ == row.first_name@
        &&& self.last_name@ == row.last_name@
        &&& self.city == row.city
        &&& self.phone_number@ == row.phone_number@
    }

    /// `row` as the list shows it.
    pub fn of(row: &StoredUser) -> (user: ListedUser)
        ensures
            user.shows(*row),
    {
        ListedUser {
            id: row.id,
            email: row.email.clone(),
            first_name: row.first_name.clone(),
            last_name: row.last_name.clone(),
            city: row.city,
            phone_number: row.phone_number.clone(),
        }
    }
}

/// `users` is the list of `rows`: one user for each row, in the same
/// order, each showing its row.
pub open spec fn lists(users: Seq<ListedUser>, rows: Seq<StoredUser>) -> bool {
    &&& users.len() == rows.len()
    &&& forall|i: int| 0 <= i < users.len() ==> (#[trigger] users[i]).shows(rows[i])
}

/// The list of `rows`.
pub fn list_users(rows: &Vec<StoredUser>) -> (users: Vec<ListedUser>)
    ensures
        lists(users@, rows@),
{
    let mut users: Vec<ListedUser> = Vec::new();
    let mut i: usize = 0;
    while i < rows.len()
        invariant
            i <= rows.len(),
            lists(users@, rows@.take(i as int)),
        decreases rows.len() - i,
    {
        users.push(ListedUser::of(&rows[i]));
        i += 1;
    }
    assert(rows@.take(rows.len() as int) =~= rows@);
    users
}

/// What listing the users does next, for a request with this header at
/// second `now`. A request that is not authorised is refused, whatever the
/// database has answered, and the database is asked only for a request
/// that is authorised; the rows that come back are listed without their
/// digests, and a query that failed ends in an internal error.
pub open spec fn get_users_spec(
    secret: Seq<u8>,
    header: AuthHeader,
    now: int,
    fetched: Option<UsersFetched>,
    next: UsersStep,
) -> bool {
    match refusal(secret, header, now) {
        Some(reason) => next matches UsersStep::Refused(reply) && reply.is_failure(
            ErrorKind::InvalidToken,
            reason,
        ),
        None => match fetched {
            None => next is Fetch,
            Some(UsersFetched::Rows(rows)) => next matches UsersStep::Listed { reply, users }
                && reply.is_ok(Seq::<char>::empty()) && lists(users@, rows@),
            Some(UsersFetched::Failed) => next matches UsersStep::Refused(reply)
                && reply.is_failure(ErrorKind::DatabaseError, FETCH_USERS_FAILED@),
        },
    }
}

/// Whatever a step of listing the users answers has the status that fits it.
pub open spec fn users_step_wf(next: UsersStep) -> bool {
    match next {
        UsersStep::Fetch => true,
        UsersStep::Listed { reply, users } => reply.wf(),
        UsersStep::Refused(reply) => reply.wf(),
    }
}

/// What listing the users does next, for a request with this header at
/// second `now`; `fetched` is the answer of the database, or `None` where
/// it was not asked yet.
pub fn get_users_at(
    config: &TokenConfig,
    header: &AuthHeader,
    now: i64,
    fetched: Option<UsersFetched>,
) -> (next: UsersStep)
    ensures
        get_users_spec(config.key_spec(TokenKind::Access), *header, now as int, fetched, next),
        users_step_wf(next),
{
    match authorize_at(config, header, now) {
        Err(reply) => UsersStep::Refused(reply),
        Ok(_) => match fetched {
            None => UsersStep::Fetch,
            Some(UsersFetched::Rows(rows)) => UsersStep::Listed {
                reply: Reply::data(),
                users: list_users(&rows),
            },
            Some(UsersFetched::Failed) => UsersStep::Refused(
                Reply::failure(ErrorKind::DatabaseError, FETCH_USERS_FAILED),
            ),
        },
    }
}

/// What listing the users does next, for a request with this header,
/// against the clock.
pub fn get_users(config: &TokenConfig, header: &AuthHeader, fetched: Option<UsersFetched>) -> (next:
    UsersStep)
    ensures
        exists|now: int|
            0 <= now <= i64::MAX && #[trigger] get_users_spec(
                config.key_spec(TokenKind::Access),
                *header,
                now,
                fetched,
                next,
            ),
        users_step_wf(next),
{
    let now = current_timestamp();
    let next = get_users_at(config, header, now, fetched);
    assert(get_users_spec(
        config.key_spec(TokenKind::Access),
        *header,
        now as int,
        fetched,
        next,
    ));
    next
}

/// Where a login stands: what was asked last, with its answer.
#[derive(Debug)]
pub enum LoginAt {
    /// Nothing was asked yet.
    Start,
    /// The database was asked for the digest of the user with the address.
    Looked(Stored),
}

/// What a login does next.
#[derive(Debug)]
pub enum LoginStep {
    /// Ask the database for the digest of the user with this e-mail address.
    FindUserByEmail(String),
    /// Answer the client.
    Answer(Reply),
}

/// What a login with the address `email` and `password` does next: the
/// database is asked for the digest of the user with that address, and
/// the login succeeds where the user is there and the password is the one
/// that the digest was made from.
pub open spec fn login_user_spec(
    at: LoginAt,
    email: Seq<char>,
    password: Seq<char>,
    next: LoginStep,
) -> bool {
    match at {
        LoginAt::Start => next matches LoginStep::FindUserByEmail(asked) && asked@ == email,
        LoginAt::Looked(Stored::Found(digest)) => next matches LoginStep::Answer(r) && (
        match verify_spec(password, digest@) {
            Ok(true) => r.is_ok(LOGIN_SUCCESSFUL@),
            Ok(false) => r.is_failure(ErrorKind::InvalidCredentials, INVALID_CREDENTIALS@),
            Err(_) => r.is_failure(ErrorKind::HashingError, VERIFY_FAILED@),
        }),
        LoginAt::Looked(Stored::Missing) => next matches LoginStep::Answer(r) && r.is_failure(
            ErrorKind::InvalidCredentials,
            INVALID_CREDENTIALS@,
        ),
        LoginAt::Looked(Stored::Failed) => next matches LoginStep::Answer(r) && r.is_failure(
            ErrorKind::DatabaseError,
            DATABASE_ERROR@,
        ),
    }
}

/// What a login with the address `email` and `password` does next.
pub fn login_user(at: &LoginAt, email: &str, password: &str) -> (next: LoginStep)
    ensures
        login_user_spec(*at, email@, password@, next),
        next matches LoginStep::Answer(reply) ==> reply.wf(),
{
    match at {
        LoginAt::Start => LoginStep::FindUserByEmail(email.to_owned()),
        LoginAt::Looked(Stored::Found(digest)) => match verify_password(
            password,
            digest.as_str(),
        ) {
            Ok(true) => LoginStep::Answer(Reply::ok(LOGIN_SUCCESSFUL)),
            Ok(false) => LoginStep::Answer(
                Reply::failure(ErrorKind::InvalidCredentials, INVALID_CREDENTIALS),
            ),
            Err(_) => LoginStep::Answer(Reply::failure(ErrorKind::HashingError, VERIFY_FAILED)),
        },
        LoginAt::Looked(Stored::Missing) => LoginStep::Answer(
            Reply::failure(ErrorKind::InvalidCredentials, INVALID_CREDENTIALS),
        ),
        LoginAt::Looked(Stored::Failed) => LoginStep::Answer(
            Reply::failure(ErrorKind::DatabaseError, DATABASE_ERROR),
        ),
    }
}

impl NewUserRecord {
    /// This is the row for `request` with `digest` for its password.
    pub open spec fn is_row_of(&self, request: NewUser, digest: Seq<char>) -> bool {
        &&& self.first_name@ == request.first_name@
        &&& self.last_name@ == request.last_name@
        &&& self.email@ == request.email@
        &&& self.password@ == digest
        &&& self.city == request.city
        &&& self.phone_number@ == request.phone_number@
    }

    /// The row for `request`, with `digest` in the place of its password.
    pub fn new(request: &NewUser, digest: String) -> (row: NewUserRecord)
        ensures
            row.is_row_of(*request, digest@),
    {
        NewUserRecord {
            first_name: request.first_name.clone(),
            last_name: request.last_name.clone(),
            email: request.email.clone(),
            password: digest,
            city: request.city,
            phone_number: request.phone_number.clone(),
        }
    }
}

/// What becomes of a request once its password was hashed, or could not
/// be: the row to insert, with the digest in the place of the password, or
/// the internal error that ends the request.
pub fn row_or_refusal(request: &NewUser, hashed: Result<String, PasswordError>) -> (r: Result<
    NewUserRecord,
    Reply,
>)
    ensures
        match hashed {
            Ok(digest) => r matches Ok(row) && row.is_row_of(*request, digest@),
            Err(_) => r matches Err(reply) && reply.is_failure(
                ErrorKind::HashingError,
                HASH_FAILED@,
            ) && reply.wf(),
        },
{
    match hashed {
        Ok(digest) => Ok(NewUserRecord::new(request, digest)),
        Err(_) => Err(Reply::failure(ErrorKind::HashingError, HASH_FAILED)),
    }
}

/// `next` is what a registration ends in once its row is written and its
/// two tokens were signed, or could not be: 201 with the message of a
/// registration and the tokens, or the internal error that names the first
/// token that is missing.
pub open spec fn welcomed(
    access: Result<String, TokenError>,
    refresh: Result<String, TokenError>,
    next: RegisterStep,
) -> bool {
    match (access, refresh) {
        (Err(_), _) => next matches RegisterStep::Refused(reply) && reply.is_failure(
            ErrorKind::SigningError,
            ACCESS_TOKEN_FAILED@,
        ),
        (Ok(_), Err(_)) => next matches RegisterStep::Refused(reply) && reply.is_failure(
            ErrorKind::SigningError,
            REFRESH_TOKEN_FAILED@,
        ),
        (Ok(first), Ok(second)) => next matches RegisterStep::Registered {
            reply,
            access_token,
            refresh_token,
        } && reply.is_created(REGISTERED@) && access_token == first && refresh_token == second,
    }
}

/// What a registration ends in once its row is written and its two tokens
/// were signed, or could not be.
pub fn welcome(access: Result<String, TokenError>, refresh: Result<String, TokenError>) -> (next:
    RegisterStep)
    ensures
        welcomed(access, refresh, next),
        next matches RegisterStep::Refused(reply) ==> reply.wf(),
        next matches RegisterStep::Registered { reply, .. } ==> reply.wf(),
{
    match access {
        Err(_) => RegisterStep::Refused(
            Reply::failure(ErrorKind::SigningError, ACCESS_TOKEN_FAILED),
        ),
        Ok(access_token) => match refresh {
            Err(_) => RegisterStep::Refused(
                Reply::failure(ErrorKind::SigningError, REFRESH_TOKEN_FAILED),
            ),
            Ok(refresh_token) => RegisterStep::Registered {
                reply: Reply::created(REGISTERED),
                access_token,
                refresh_token,
            },
        },
    }
}

impl Registration {
    /// Past the first step, the e-mail address and the phone number of the
    /// request have their formats.
    #[verifier::type_invariant]
    spec fn checked(self) -> bool {
        self.stage != Stage::Start ==> email_format(self.request.email@) && phone_format(
            self.request.phone_number@,
        )
    }

    /// The request that is being served.
    pub closed spec fn request(&self) -> NewUser {
        self.request
    }

    /// How far the registration has come.
    pub closed spec fn stage(&self) -> Stage {
        self.stage
    }

    /// A registration of `request`, before its first step.
    pub fn new(request: NewUser) -> (r: Registration)
        ensures
            r.request() == request,
            r.stage() == Stage::Start,
    {
        Registration { request, stage: Stage::Start }
    }

    /// The first step gave what it must: a malformed e-mail address or
    /// phone number is refused before anything is asked of the database;
    /// otherwise the database is asked for a user with the address.
    pub open spec fn started(request: NewUser, next: RegisterStep) -> bool {
        if !email_format(request.email@) {
            next matches RegisterStep::Refused(reply) && reply.is_failure(
                ErrorKind::ValidationError,
                INVALID_EMAIL@,
            )
        } else if !phone_format(request.phone_number@) {
            next matches RegisterStep::Refused(reply) && reply.is_failure(
                ErrorKind::ValidationError,
                INVALID_PHONE@,
            )
        } else {
            next matches RegisterStep::Ask(then, Query::FindUserByEmail(email)) && then.request()
                == request && then.stage() == Stage::CheckingEmail && email@ == request.email@
        }
    }

    /// The step after the query for the address gave what it must: an
    /// address that is taken is a conflict, an address that is free has
    /// the database asked for the city, and a query that failed ends the
    /// request in an internal error.
    pub open spec fn email_checked(request: NewUser, answer: Answer, next: RegisterStep) -> bool {
        match answer {
            Answer::Looked(Lookup::Found) => next matches RegisterStep::Refused(reply)
                && reply.is_failure(ErrorKind::ConflictError, EMAIL_EXISTS@),
            Answer::Looked(Lookup::Missing) => next matches RegisterStep::Ask(
                then,
                Query::FindCity(city),
            ) && then.request() == request && then.stage() == Stage::CheckingCity && city
                == request.city,
            _ => next matches RegisterStep::Refused(reply) && reply.is_failure(
                ErrorKind::DatabaseError,
                REGISTER_FAILED@,
            ),
        }
    }

    /// The step after the query for the city gave what it must: a city
    /// that is not there is refused, and a query that failed ends the
    /// request in an internal error; where the city is there the password
    /// is hashed, and the database is asked to insert the row with the
    /// digest, or, where no digest could be made, the request ends in an
    /// internal error.
    pub open spec fn city_checked(request: NewUser, answer: Answer, next: RegisterStep) -> bool {
        match answer {
            Answer::Looked(Lookup::Missing) => next matches RegisterStep::Refused(reply)
                && reply.is_failure(ErrorKind::ValidationError, INVALID_CITY@),
            Answer::Looked(Lookup::Found) => {
                ||| next matches RegisterStep::Refused(reply) && reply.is_failure(
                    ErrorKind::HashingError,
                    HASH_FAILED@,
                )
                ||| next matches RegisterStep::Ask(then, Query::InsertUser(row)) && then.request()
                    == request && then.stage() == Stage::Saving && row.is_row_of(
                    request,
                    row.password@,
                ) && is_digest_of(row.password@, request.password@)
            },
            _ => next matches RegisterStep::Refused(reply) && reply.is_failure(
                ErrorKind::DatabaseError,
                REGISTER_FAILED@,
            ),
        }
    }

    /// The step after the insert gave what it must: an insert that was
    /// not done is an internal error; otherwise an access token and a
    /// refresh token are issued for the address, each at some moment of
    /// the clock, and the request ends in what `welcome` makes of the two.
    pub open spec fn saved(
        request: NewUser,
        config: &TokenConfig,
        answer: Answer,
        next: RegisterStep,
    ) -> bool {
        if answer != Answer::Wrote(Written::Done) {
            next matches RegisterStep::Refused(reply) && reply.is_failure(
                ErrorKind::DatabaseError,
                REGISTER_FAILED@,
            )
        } else {
            exists|access: Result<String, TokenError>, refresh: Result<String, TokenError>|
                {
                    &&& issued_at_some_moment(access, config, TokenKind::Access, request.email@)
                    &&& issued_at_some_moment(refresh, config, TokenKind::Refresh, request.email@)
                    &&& #[trigger] welcomed(access, refresh, next)
                }
        }
    }

    /// Takes the next step of the registration with the answer of the
    /// database to the last question.
    pub fn step(self, config: &TokenConfig, answer: Answer) -> (next: RegisterStep)
        ensures
            match self.stage() {
                Stage::Start => Self::started(self.request(), next),
                Stage::CheckingEmail => Self::email_checked(self.request(), answer, next),
                Stage::CheckingCity => Self::city_checked(self.request(), answer, next),
                Stage::Saving => Self::saved(self.request(), config, answer, next),
            },
            // Nothing is written for a request with a malformed field.
            next matches RegisterStep::Ask(_, Query::InsertUser(row)) ==> email_format(row.email@)
                && phone_format(row.phone_number@),
            next matches RegisterStep::Refused(reply) ==> reply.wf(),
            next matches RegisterStep::Registered { reply, .. } ==> reply.wf(),
    {
        proof {
            use_type_invariant(&self);
        }
        let Registration { request, stage } = self;
        match stage {
            Stage::Start => {
                if !is_valid_email(request.email.as_str()) {
                    RegisterStep::Refused(Reply::failure(ErrorKind::ValidationError, INVALID_EMAIL))
                } else if !validate_phone(request.phone_number.as_str()) {
                    RegisterStep::Refused(Reply::failure(ErrorKind::ValidationError, INVALID_PHONE))
                } else {
                    let email = request.email.clone();
                    RegisterStep::Ask(
                        Registration { request, stage: Stage::CheckingEmail },
                        Query::FindUserByEmail(email),
                    )
                }
            },
            Stage::CheckingEmail => match answer {
                Answer::Looked(Lookup::Found) => RegisterStep::Refused(
                    Reply::failure(ErrorKind::ConflictError, EMAIL_EXISTS),
                ),
                Answer::Looked(Lookup::Missing) => {
                    let city = request.city;
                    RegisterStep::Ask(
                        Registration { request, stage: Stage::CheckingCity },
                        Query::FindCity(city),
                    )
                },
                _ => RegisterStep::Refused(
                    Reply::failure(ErrorKind::DatabaseError, REGISTER_FAILED),
                ),
            },
            Stage::CheckingCity => match answer {
                Answer::Looked(Lookup::Missing) => RegisterStep::Refused(
                    Reply::failure(ErrorKind::ValidationError, INVALID_CITY),
                ),
                Answer::Looked(Lookup::Found) => {
                    let hashed = hash_password(request.password.as_str());
                    match row_or_refusal(&request, hashed) {
                        Err(reply) => RegisterStep::Refused(reply),
                        Ok(row) => RegisterStep::Ask(
                            Registration { request, stage: Stage::Saving },
                            Query::InsertUser(row),
                        ),
                    }
                },
                _ => RegisterStep::Refused(
                    Reply::failure(ErrorKind::DatabaseError, REGISTER_FAILED),
                ),
            },
            Stage::Saving => {
                if answer != Answer::Wrote(Written::Done) {
                    RegisterStep::Refused(Reply::failure(ErrorKind::DatabaseError, REGISTER_FAILED))
                } else {
                    let access = generate_access_token(config, request.email.as_str());
                    let refresh = generate_refresh_token(config, request.email.as_str());
                    let ghost signed = (access, refresh);
                    let next = welcome(access, refresh);
                    assert(welcomed(signed.0, signed.1, next));
                    next
                }
            },
        }
    }
}

/// Begins the registration of `request`: takes its first step, which
/// checks the fields of the request and asks nothing of the database for a
/// request that fails the check.
pub fn register_user(request: NewUser, config: &TokenConfig) -> (next: RegisterStep)
    ensures
        Registration::started(request, next),
        next matches RegisterStep::Refused(reply) ==> reply.wf(),
{
    Registration::new(request).step(config, Answer::Nothing)
}

} // verus!
