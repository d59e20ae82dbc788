//! Users: registration data, stored users, and how lookups and insertions fail.
use vstd::prelude::*;
use vstd::string::*;
use vstd::std_specs::convert::FromSpecImpl;
use crate::errors::{AuthError, DomainError, TechnicalError, UserError};
use crate::insertion::InsertionError;
use crate::text::{contains_text, occurs_in};

verus! {

/// The fields of a signup request.
#[derive(Clone, Debug, PartialEq, Eq)]
pub struct SignupRequest {
    pub name: String,
    pub email: String,
    pub username: String,
    pub password: String,
}

/// The fields of a login request.
#[derive(Clone, Debug, PartialEq, Eq)]
pub struct LoginRequest {
    pub email: String,
    pub password: String,
}

/// A registration: the new user's fields and the password in clear.
#[derive(Clone, Debug, PartialEq, Eq)]
pub struct UserRegistration {
    pub name: String,
    pub email: String,
    pub username: String,
    pub password: String,
}

/// A user to be stored, with the hash of the password.
#[derive(Clone, Debug, PartialEq, Eq)]
pub struct NewUser {
    pub name: String,
    pub email: String,
    pub username: String,
    pub password_hash: String,
}

/// A stored user.
#[derive(Clone, Debug, PartialEq, Eq)]
pub struct User {
    pub id: i32,
    pub name: String,
    pub email: String,
    pub username: String,
    pub password_hash: String,
    /// Creation time, in milliseconds since the epoch.
    pub created_at: i64,
}

impl NewUser {
    /// The user to store for a signup request and the hash of its password.
    pub fn from_request(req: SignupRequest, password_hash: String) -> (u: NewUser)
        ensures
            u == (NewUser { name: req.name, email: req.email, username: req.username, password_hash }),
    {
        NewUser { name: req.name, email: req.email, username: req.username, password_hash }
    }
}

impl UserRegistration {
    /// The user to store for this registration and the hash of its password.
    pub fn into_new_user_with(self, password_hash: String) -> (u: NewUser)
        ensures
            u == (NewUser { name: self.name, email: self.email, username: self.username, password_hash }),
    {
        NewUser { name: self.name, email: self.email, username: self.username, password_hash }
    }
}

/// The registration of a signup request.
pub open spec fn registration_of(req: SignupRequest) -> UserRegistration {
    UserRegistration { name: req.name, email: req.email, username: req.username, password: req.password }
}

/// Converting a signup request into a registration keeps every field where it was:
/// the name stays the name, the email the email, the username the username and the
/// password the password.
pub proof fn law_registration_keeps_fields(req: SignupRequest)
    ensures
        registration_of(req).name == req.name,
        registration_of(req).email == req.email,
        registration_of(req).username == req.username,
        registration_of(req).password == req.password,
{
}

impl From<SignupRequest> for UserRegistration {
    fn from(req: SignupRequest) -> (r: UserRegistration)
        ensures
            r.name == req.name,
            r.email == req.email,
            r.username == req.username,
            r.password == req.password,
    {
        UserRegistration { name: req.name, email: req.email, username: req.username, password: req.password }
    }
}

impl FromSpecImpl<SignupRequest> for UserRegistration {
    open spec fn obeys_from_spec() -> bool {
        true
    }

    open spec fn from_spec(req: SignupRequest) -> UserRegistration {
        registration_of(req)
    }
}

impl User {
    /// Whether this stored user holds the fields of `new_user`.
    pub open spec fn spec_matches(self, new_user: NewUser) -> bool {
        self.name@ == new_user.name@ && self.email@ == new_user.email@ && self.username@ == new_user.username@
            && self.password_hash@ == new_user.password_hash@
    }

    /// Whether this stored user holds the fields of `new_user` (the ID and creation
    /// time are the store's).
    pub fn matches(&self, new_user: &NewUser) -> (r: bool)
        ensures
            r == self.spec_matches(*new_user),
    {
        crate::insertion::same_text(self.name.as_str(), new_user.name.as_str())
            && crate::insertion::same_text(self.email.as_str(), new_user.email.as_str())
            && crate::insertion::same_text(self.username.as_str(), new_user.username.as_str())
            && crate::insertion::same_text(self.password_hash.as_str(), new_user.password_hash.as_str())
    }
}

/// What a violated unique constraint of the users table means.
pub enum UniqueField {
    Email,
    Username,
    Other,
}

/// The field that a violated constraint is about, judged by its name: one whose
/// name mentions "email" is about the email, else one that mentions "username" is
/// about the username.
pub open spec fn spec_unique_field(constraint: Seq<char>) -> UniqueField {
    if occurs_in(constraint, "email"@) {
        UniqueField::Email
    } else if occurs_in(constraint, "username"@) {
        UniqueField::Username
    } else {
        UniqueField::Other
    }
}

fn unique_field(constraint: &str) -> (r: UniqueField)
    ensures
        r == spec_unique_field(constraint@),
{
    if contains_text(constraint, "email") {
        UniqueField::Email
    } else if contains_text(constraint, "username") {
        UniqueField::Username
    } else {
        UniqueField::Other
    }
}

/// The text of an unexpected unique violation.
pub open spec fn unexpected_violation_text(constraint: Seq<char>) -> Seq<char> {
    "Unexpected unique violation: "@ + constraint
}

/// Whether `r` is the failure reported for the insertion failure `e` of a new user:
/// a duplicate email or username, an unexpected unique violation, or a technical failure.
pub open spec fn is_user_insertion_error(e: InsertionError, r: DomainError) -> bool {
    &&& e matches InsertionError::UniqueViolation(v) ==> (match spec_unique_field(v@) {
        UniqueField::Email => r == DomainError::User(UserError::DuplicateEmail),
        UniqueField::Username => r == DomainError::User(UserError::DuplicateUsername),
        UniqueField::Other => r matches DomainError::Technical(TechnicalError::Unexpected(m)) && m@ == unexpected_violation_text(v@),
    })
    &&& e matches InsertionError::Technical(d) ==> r == DomainError::Technical(TechnicalError::Database(d))
}

/// The failure of inserting a new user: a duplicate email or username, an
/// unexpected unique violation, or a technical failure.
pub fn user_insertion_error(e: InsertionError) -> (r: DomainError)
    ensures
        is_user_insertion_error(e, r),
{
    match e {
        InsertionError::UniqueViolation(v) => match unique_field(v.as_str()) {
            UniqueField::Email => DomainError::User(UserError::DuplicateEmail),
            UniqueField::Username => DomainError::User(UserError::DuplicateUsername),
            UniqueField::Other => DomainError::Technical(
                TechnicalError::Unexpected(String::from_str("Unexpected unique violation: ").concat(v.as_str())),
            ),
        },
        InsertionError::Technical(d) => DomainError::Technical(TechnicalError::Database(d)),
    }
}

/// The failure of a registration: as for a new user, but a duplicate email or
/// username is reported as an authentication failure.
pub fn registration_error(e: InsertionError) -> (r: DomainError)
    ensures
        e matches InsertionError::UniqueViolation(v) ==> (match spec_unique_field(v@) {
            UniqueField::Email => r == DomainError::Auth(AuthError::DuplicateEmail),
            UniqueField::Username => r == DomainError::Auth(AuthError::DuplicateUsername),
            UniqueField::Other => r matches DomainError::Technical(TechnicalError::Unexpected(m)) && m@ == unexpected_violation_text(v@),
        }),
        e matches InsertionError::Technical(d) ==> r == DomainError::Technical(TechnicalError::Database(d)),
{
    match e {
        InsertionError::UniqueViolation(v) => match unique_field(v.as_str()) {
            UniqueField::Email => DomainError::Auth(AuthError::DuplicateEmail),
            UniqueField::Username => DomainError::Auth(AuthError::DuplicateUsername),
            UniqueField::Other => DomainError::Technical(
                TechnicalError::Unexpected(String::from_str("Unexpected unique violation: ").concat(v.as_str())),
            ),
        },
        InsertionError::Technical(d) => DomainError::Technical(TechnicalError::Database(d)),
    }
}

/// The result of inserting a new user: its ID, or the failure.
pub fn insert_new_result(r: Result<i32, InsertionError>) -> (out: Result<i32, DomainError>)
    ensures
        r matches Ok(id) ==> out == Ok::<i32, DomainError>(id),
        r matches Err(e) ==> (out matches Err(d) && is_user_insertion_error(e, d)),
{
    match r {
        Ok(id) => Ok(id),
        Err(e) => Err(user_insertion_error(e)),
    }
}

/// A looked-up user, or "not found".
pub fn found_user(found: Option<User>) -> (r: Result<User, DomainError>)
    ensures
        found matches Some(u) ==> r == Ok::<User, DomainError>(u),
        found is None ==> r matches Err(DomainError::User(UserError::NotFound)),
{
    match found {
        Some(u) => Ok(u),
        None => Err(DomainError::User(UserError::NotFound)),
    }
}

} // verus!
