//! The failures of the service, grouped by domain, with the messages that users see.
use vstd::prelude::*;
use vstd::string::*;

verus! {

/// Failures of registration, login and token checks.
#[derive(PartialEq, Eq, Structural, Clone, Copy, Debug)]
pub enum AuthError {
    DuplicateEmail,
    DuplicateUsername,
    InvalidEmail,
    InvalidPassword,
    JwtValidation,
}

/// Failures of user lookups and user creation.
#[derive(PartialEq, Eq, Structural, Clone, Copy, Debug)]
pub enum UserError {
    NotFound,
    DuplicateEmail,
    DuplicateUsername,
}

/// Failures of friend requests.
#[derive(PartialEq, Eq, Structural, Clone, Copy, Debug)]
pub enum FriendshipError {
    NonexistentUser,
    SelfFriendship,
    AlreadyFriends,
    AlreadyRequested,
}

/// Failures of prompt and post handling.
#[derive(PartialEq, Eq, Structural, Clone, Copy, Debug)]
pub enum ContentError {
    DuplicatePrompt,
    DuplicatePost,
    OwnPrompt,
    NotFound,
    NotFriends,
}

/// Failures of prompt handling in the prompt-only service.
#[derive(PartialEq, Eq, Structural, Clone, Copy, Debug)]
pub enum PromptError {
    Duplicate,
    NotFound,
    NotFriends,
}

/// A failed database call, as the caller of the database saw it: the error's text,
/// the Postgres error code when the failure came from the database server, and
/// the name of the violated constraint when the server named one.
#[derive(Clone, Debug)]
pub struct DbError {
    pub message: String,
    pub code: Option<String>,
    pub constraint: Option<String>,
}

/// Failures that are not the user's doing.
#[derive(Clone, Debug)]
pub enum TechnicalError {
    Database(DbError),
    Bcrypt(String),
    TokenCreation(String),
    /// The clock read a time before 1970 (seconds since the epoch).
    Pre1970(i64),
    Unexpected(String),
    Other(String),
}

/// Every failure of a service call.
#[derive(Clone, Debug)]
pub enum DomainError {
    Auth(AuthError),
    User(UserError),
    Friendship(FriendshipError),
    Content(ContentError),
    Prompt(PromptError),
    Technical(TechnicalError),
}

impl AuthError {
    pub open spec fn spec_message(self) -> Seq<char> {
        match self {
            AuthError::DuplicateEmail => "An account with the same email already exists"@,
            AuthError::DuplicateUsername => "An account with the same username already exists"@,
            AuthError::InvalidEmail => "Invalid email"@,
            AuthError::InvalidPassword => "Invalid password"@,
            AuthError::JwtValidation => "Expired or invalid token. Try logging in again."@,
        }
    }

    /// The message shown to the user.
    pub fn message(&self) -> (s: String)
        ensures
            s@ == self.spec_message(),
    {
        match self {
            AuthError::DuplicateEmail => String::from_str("An account with the same email already exists"),
            AuthError::DuplicateUsername => String::from_str("An account with the same username already exists"),
            AuthError::InvalidEmail => String::from_str("Invalid email"),
            AuthError::InvalidPassword => String::from_str("Invalid password"),
            AuthError::JwtValidation => String::from_str("Expired or invalid token. Try logging in again."),
        }
    }
}

impl UserError {
    pub open spec fn spec_message(self) -> Seq<char> {
        match self {
            UserError::NotFound => "User not found"@,
            UserError::DuplicateEmail => "An account with the same email already exists"@,
            UserError::DuplicateUsername => "An account with the same username already exists"@,
        }
    }

    /// The message shown to the user.
    pub fn message(&self) -> (s: String)
        ensures
            s@ == self.spec_message(),
    {
        match self {
            UserError::NotFound => String::from_str("User not found"),
            UserError::DuplicateEmail => String::from_str("An account with the same email already exists"),
            UserError::DuplicateUsername => String::from_str("An account with the same username already exists"),
        }
    }
}

impl FriendshipError {
    pub open spec fn spec_message(self) -> Seq<char> {
        match self {
            FriendshipError::NonexistentUser => "Specified user does not exist"@,
            FriendshipError::SelfFriendship => "Impossible to have a friendship with oneself"@,
            FriendshipError::AlreadyFriends => "Already friends with this user"@,
            FriendshipError::AlreadyRequested => "Pending friend request to this user already exists"@,
        }
    }

    /// The message shown to the user.
    pub fn message(&self) -> (s: String)
        ensures
            s@ == self.spec_message(),
    {
        match self {
            FriendshipError::NonexistentUser => String::from_str("Specified user does not exist"),
            FriendshipError::SelfFriendship => String::from_str("Impossible to have a friendship with oneself"),
            FriendshipError::AlreadyFriends => String::from_str("Already friends with this user"),
            FriendshipError::AlreadyRequested => String::from_str("Pending friend request to this user already exists"),
        }
    }
}

impl ContentError {
    pub open spec fn spec_message(self) -> Seq<char> {
        match self {
            ContentError::DuplicatePrompt => "Already created the same prompt"@,
            ContentError::DuplicatePost => "Cannot create multiple posts in response to the same prompt. Try editing the existing post."@,
            ContentError::OwnPrompt => "Cannot write a post in response to one's own prompt"@,
            ContentError::NotFound => "Content not found"@,
            ContentError::NotFriends => "Must be friends to see someone's content"@,
        }
    }

    /// The message shown to the user.
    pub fn message(&self) -> (s: String)
        ensures
            s@ == self.spec_message(),
    {
        match self {
            ContentError::DuplicatePrompt => String::from_str("Already created the same prompt"),
            ContentError::DuplicatePost => String::from_str("Cannot create multiple posts in response to the same prompt. Try editing the existing post."),
            ContentError::OwnPrompt => String::from_str("Cannot write a post in response to one's own prompt"),
            ContentError::NotFound => String::from_str("Content not found"),
            ContentError::NotFriends => String::from_str("Must be friends to see someone's content"),
        }
    }
}

impl PromptError {
    pub open spec fn spec_message(self) -> Seq<char> {
        match self {
            PromptError::Duplicate => "You have already created the same prompt"@,
            PromptError::NotFound => "Prompt not found"@,
            PromptError::NotFriends => "You must be friends to see someone's content"@,
        }
    }

    /// The message shown to the user.
    pub fn message(&self) -> (s: String)
        ensures
            s@ == self.spec_message(),
    {
        match self {
            PromptError::Duplicate => String::from_str("You have already created the same prompt"),
            PromptError::NotFound => String::from_str("Prompt not found"),
            PromptError::NotFriends => String::from_str("You must be friends to see someone's content"),
        }
    }
}

impl DomainError {
    /// The message of a failure that is the user's doing; technical failures have
    /// their own log text and are never shown.
    pub open spec fn spec_message(self) -> Seq<char> {
        match self {
            DomainError::Auth(e) => e.spec_message(),
            DomainError::User(e) => e.spec_message(),
            DomainError::Friendship(e) => e.spec_message(),
            DomainError::Content(e) => e.spec_message(),
            DomainError::Prompt(e) => e.spec_message(),
            DomainError::Technical(_) => "Internal server error"@,
        }
    }

    /// The message shown to the user: the message of the wrapped failure, or
    /// "Internal server error" for a technical one.
    pub fn message(&self) -> (s: String)
        ensures
            s@ == self.spec_message(),
    {
        match self {
            DomainError::Auth(e) => e.message(),
            DomainError::User(e) => e.message(),
            DomainError::Friendship(e) => e.message(),
            DomainError::Content(e) => e.message(),
            DomainError::Prompt(e) => e.message(),
            DomainError::Technical(_) => String::from_str("Internal server error"),
        }
    }
}

impl TechnicalError {
    pub open spec fn spec_log_text(self) -> Seq<char> {
        match self {
            TechnicalError::Database(e) => "Database error: "@ + e.message@,
            TechnicalError::Bcrypt(m) => "Bcrypt error: "@ + m@,
            TechnicalError::TokenCreation(m) => "JWT creation error: "@ + m@,
            TechnicalError::Pre1970(t) => "Unexpected pre-1970 system time: "@ + crate::text::int_text(t as int),
            TechnicalError::Unexpected(m) => "Unexpected error: "@ + m@,
            TechnicalError::Other(m) => "Technical error: "@ + m@,
        }
    }

    /// The text written to the server log for this failure.
    pub fn log_text(&self) -> (s: String)
        ensures
            s@ == self.spec_log_text(),
    {
        match self {
            TechnicalError::Database(e) => String::from_str("Database error: ").concat(e.message.as_str()),
            TechnicalError::Bcrypt(m) => String::from_str("Bcrypt error: ").concat(m.as_str()),
            TechnicalError::TokenCreation(m) => String::from_str("JWT creation error: ").concat(m.as_str()),
            TechnicalError::Pre1970(t) => String::from_str("Unexpected pre-1970 system time: ").concat(crate::text::i64_text(*t).as_str()),
            TechnicalError::Unexpected(m) => String::from_str("Unexpected error: ").concat(m.as_str()),
            TechnicalError::Other(m) => String::from_str("Technical error: ").concat(m.as_str()),
        }
    }
}

} // verus!
