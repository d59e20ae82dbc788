//! What the HTTP layer answers: the status code and message of every failure, the
//! answers to friend requests, and the configuration the server starts from.
use vstd::prelude::*;
use vstd::string::*;
use crate::errors::{AuthError, ContentError, DomainError, FriendshipError, PromptError, UserError};
use crate::friendship::FriendshipOutcome;

verus! {

pub const STATUS_OK: u16 = 200;
pub const STATUS_CREATED: u16 = 201;
pub const STATUS_NO_CONTENT: u16 = 204;
pub const STATUS_BAD_REQUEST: u16 = 400;
pub const STATUS_UNAUTHORIZED: u16 = 401;
pub const STATUS_FORBIDDEN: u16 = 403;
pub const STATUS_NOT_FOUND: u16 = 404;
pub const STATUS_CONFLICT: u16 = 409;
pub const STATUS_INTERNAL_SERVER_ERROR: u16 = 500;

/// The body of a failed request.
#[derive(Clone, Debug, PartialEq, Eq)]
pub struct ErrorResponse {
    pub error: String,
}

/// The body of a successful request that reports a message.
#[derive(Clone, Debug, PartialEq, Eq)]
pub struct SuccessResponse {
    pub message: String,
}

/// A failure of a request, as the HTTP layer reports it.
#[derive(Clone, Debug)]
pub enum ApiError {
    /// The request's fields failed validation; the text describes the fields.
    Request(String),
    /// The bearer token was missing, expired or invalid.
    Token,
    /// A service call failed.
    Domain(DomainError),
}

/// The status code of a service failure.
pub open spec fn domain_status(e: DomainError) -> u16 {
    match e {
        DomainError::Auth(a) => match a {
            AuthError::DuplicateEmail | AuthError::DuplicateUsername => STATUS_CONFLICT,
            _ => STATUS_UNAUTHORIZED,
        },
        DomainError::User(u) => match u {
            UserError::NotFound => STATUS_NOT_FOUND,
            _ => STATUS_CONFLICT,
        },
        DomainError::Friendship(f) => match f {
            FriendshipError::SelfFriendship => STATUS_BAD_REQUEST,
            FriendshipError::NonexistentUser => STATUS_NOT_FOUND,
            _ => STATUS_CONFLICT,
        },
        DomainError::Content(c) => match c {
            ContentError::DuplicatePrompt | ContentError::DuplicatePost => STATUS_CONFLICT,
            ContentError::OwnPrompt => STATUS_BAD_REQUEST,
            ContentError::NotFound => STATUS_NOT_FOUND,
            ContentError::NotFriends => STATUS_FORBIDDEN,
        },
        DomainError::Prompt(p) => match p {
            PromptError::Duplicate => STATUS_CONFLICT,
            PromptError::NotFound => STATUS_NOT_FOUND,
            PromptError::NotFriends => STATUS_FORBIDDEN,
        },
        DomainError::Technical(_) => STATUS_INTERNAL_SERVER_ERROR,
    }
}

impl ApiError {
    pub open spec fn spec_status(self) -> u16 {
        match self {
            ApiError::Request(_) => STATUS_BAD_REQUEST,
            ApiError::Token => STATUS_UNAUTHORIZED,
            ApiError::Domain(e) => domain_status(e),
        }
    }

    pub open spec fn spec_message(self) -> Seq<char> {
        match self {
            ApiError::Request(m) => m@,
            ApiError::Token => "Expired or invalid token"@,
            ApiError::Domain(e) => e.spec_message(),
        }
    }

    /// The status code of the response.
    pub fn status(&self) -> (s: u16)
        ensures
            s == self.spec_status(),
    {
        match self {
            ApiError::Request(_) => STATUS_BAD_REQUEST,
            ApiError::Token => STATUS_UNAUTHORIZED,
            ApiError::Domain(e) => match e {
                DomainError::Auth(a) => match a {
                    AuthError::DuplicateEmail | AuthError::DuplicateUsername => STATUS_CONFLICT,
                    _ => STATUS_UNAUTHORIZED,
                },
                DomainError::User(u) => match u {
                    UserError::NotFound => STATUS_NOT_FOUND,
                    _ => STATUS_CONFLICT,
                },
                DomainError::Friendship(f) => match f {
                    FriendshipError::SelfFriendship => STATUS_BAD_REQUEST,
                    FriendshipError::NonexistentUser => STATUS_NOT_FOUND,
                    _ => STATUS_CONFLICT,
                },
                DomainError::Content(c) => match c {
                    ContentError::DuplicatePrompt | ContentError::DuplicatePost => STATUS_CONFLICT,
                    ContentError::OwnPrompt => STATUS_BAD_REQUEST,
                    ContentError::NotFound => STATUS_NOT_FOUND,
                    ContentError::NotFriends => STATUS_FORBIDDEN,
                },
                DomainError::Prompt(p) => match p {
                    PromptError::Duplicate => STATUS_CONFLICT,
                    PromptError::NotFound => STATUS_NOT_FOUND,
                    PromptError::NotFriends => STATUS_FORBIDDEN,
                },
                DomainError::Technical(_) => STATUS_INTERNAL_SERVER_ERROR,
            },
        }
    }

    /// The message of the response; a technical failure is never described to the user.
    pub fn message(&self) -> (s: String)
        ensures
            s@ == self.spec_message(),
    {
        match self {
            ApiError::Request(m) => m.clone(),
            ApiError::Token => String::from_str("Expired or invalid token"),
            ApiError::Domain(e) => e.message(),
        }
    }

    /// The status code and body of the response.
    pub fn response(&self) -> (r: (u16, ErrorResponse))
        ensures
            r.0 == self.spec_status(),
            r.1.error@ == self.spec_message(),
    {
        (self.status(), ErrorResponse { error: self.message() })
    }
}

/// A technical failure is answered with status 500 and a message that reveals nothing.
pub proof fn law_technical_failures_hidden(e: crate::errors::TechnicalError)
    ensures
        ApiError::Domain(DomainError::Technical(e)).spec_status() == STATUS_INTERNAL_SERVER_ERROR,
        ApiError::Domain(DomainError::Technical(e)).spec_message() == "Internal server error"@,
{
}

/// Every failure is answered with a client error (4xx) unless it is technical (500).
pub proof fn law_status_classes(e: ApiError)
    ensures
        (e is Domain && e->Domain_0 is Technical) <==> e.spec_status() == STATUS_INTERNAL_SERVER_ERROR,
        !(e is Domain && e->Domain_0 is Technical) ==> 400 <= e.spec_status() < 500,
{
}

/// The answer to an accepted friend request: 200 "You are now friends with ..." when
/// the request accepted a pending one, 201 "Created a friend request to ..." otherwise.
pub fn add_friend_response(became_friends: bool, recipient_username: &str) -> (r: (u16, SuccessResponse))
    ensures
        became_friends ==> r.0 == STATUS_OK && r.1.message@ == "You are now friends with "@ + recipient_username@,
        !became_friends ==> r.0 == STATUS_CREATED && r.1.message@ == "Created a friend request to "@ + recipient_username@,
{
    if became_friends {
        (STATUS_OK, SuccessResponse { message: String::from_str("You are now friends with ").concat(recipient_username) })
    } else {
        (STATUS_CREATED, SuccessResponse { message: String::from_str("Created a friend request to ").concat(recipient_username) })
    }
}

/// The answer to a friend request by its outcome: 409 for a friend or a
/// repeated request, 200 for a new friendship, 201 for a new request.
pub fn friendship_outcome_response(outcome: FriendshipOutcome, recipient_username: &str) -> (r: Result<(u16, SuccessResponse), (u16, ErrorResponse)>)
    ensures
        outcome == FriendshipOutcome::AlreadyFriends ==> (r matches Err((s, body)) && s == STATUS_CONFLICT
            && body.error@ == "You are already friends with "@ + recipient_username@),
        outcome == FriendshipOutcome::AlreadyRequested ==> (r matches Err((s, body)) && s == STATUS_CONFLICT
            && body.error@ == "You already have a pending friend request to "@ + recipient_username@),
        outcome == FriendshipOutcome::BecameFriends ==> (r matches Ok((s, body)) && s == STATUS_OK
            && body.message@ == "You are now friends with "@ + recipient_username@),
        outcome == FriendshipOutcome::CreatedRequest ==> (r matches Ok((s, body)) && s == STATUS_CREATED
            && body.message@ == "Created friend request to "@ + recipient_username@),
{
    match outcome {
        FriendshipOutcome::AlreadyFriends => Err((
            STATUS_CONFLICT,
            ErrorResponse { error: String::from_str("You are already friends with ").concat(recipient_username) },
        )),
        FriendshipOutcome::AlreadyRequested => Err((
            STATUS_CONFLICT,
            ErrorResponse { error: String::from_str("You already have a pending friend request to ").concat(recipient_username) },
        )),
        FriendshipOutcome::BecameFriends => Ok((
            STATUS_OK,
            SuccessResponse { message: String::from_str("You are now friends with ").concat(recipient_username) },
        )),
        FriendshipOutcome::CreatedRequest => Ok((
            STATUS_CREATED,
            SuccessResponse { message: String::from_str("Created friend request to ").concat(recipient_username) },
        )),
    }
}

/// The answer when the friendship service itself failed.
pub fn friendship_failure_response() -> (r: (u16, ErrorResponse))
    ensures
        r.0 == STATUS_INTERNAL_SERVER_ERROR && r.1.error@ == "failed to add friend"@,
{
    (STATUS_INTERNAL_SERVER_ERROR, ErrorResponse { error: String::from_str("failed to add friend") })
}

/// A 400 answer with the given message.
pub fn bad_request(error: String) -> (r: (u16, ErrorResponse))
    ensures
        r.0 == STATUS_BAD_REQUEST && r.1.error == error,
{
    (STATUS_BAD_REQUEST, ErrorResponse { error })
}

/// A 401 answer for a missing, expired or invalid token.
pub fn unauthorized_token() -> (r: (u16, ErrorResponse))
    ensures
        r.0 == STATUS_UNAUTHORIZED && r.1.error@ == "expired or invalid token"@,
{
    (STATUS_UNAUTHORIZED, ErrorResponse { error: String::from_str("expired or invalid token") })
}

/// A request body whose fields passed validation.
pub struct ValidatedJson<T>(pub T);

impl<T> ValidatedJson<T> {
    /// The validated body.
    pub fn inner(&self) -> (r: &T)
        ensures
            *r == self.0,
    {
        &self.0
    }
}

/// The settings the server starts from.
#[derive(Clone, Debug, PartialEq, Eq)]
pub struct AppConfig {
    pub database_url: String,
    pub bind_addr: String,
    pub jwt_secret: String,
}

impl AppConfig {
    /// The configuration from the three settings as read from the environment: the
    /// first missing one is reported.
    pub fn from_settings(
        database_url: Option<String>,
        bind_addr: Option<String>,
        jwt_secret: Option<String>,
    ) -> (r: Result<AppConfig, String>)
        ensures
            database_url is None ==> (r matches Err(m) && m@ == "failed to load DATABASE_URL"@),
            database_url is Some && bind_addr is None ==> (r matches Err(m) && m@ == "failed to load BIND_ADDR"@),
            database_url is Some && bind_addr is Some && jwt_secret is None ==> (r matches Err(m) && m@ == "failed to load JWT_SECRET"@),
            database_url matches Some(d) ==> bind_addr matches Some(b) ==> jwt_secret matches Some(s) ==>
                r == Ok::<AppConfig, String>(AppConfig { database_url: d, bind_addr: b, jwt_secret: s }),
    {
        let database_url = match database_url {
            Some(v) => v,
            None => return Err(String::from_str("failed to load DATABASE_URL")),
        };
        let bind_addr = match bind_addr {
            Some(v) => v,
            None => return Err(String::from_str("failed to load BIND_ADDR")),
        };
        let jwt_secret = match jwt_secret {
            Some(v) => v,
            None => return Err(String::from_str("failed to load JWT_SECRET")),
        };
        Ok(AppConfig { database_url, bind_addr, jwt_secret })
    }
}

} // verus!
