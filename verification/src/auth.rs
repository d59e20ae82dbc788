//! Passwords and tokens: hashing and checking passwords with bcrypt, and issuing and
//! checking JSON Web Tokens whose subject is a user ID.
use vstd::prelude::*;
use vstd::string::*;
use crate::errors::{AuthError, DomainError, TechnicalError};
use crate::text::{int_text, parsed_i32, i32_text, parse_i32};
use crate::users::{NewUser, User, UserRegistration};

verus! {

/// Seconds in the lifetime of a token: 24 hours.
pub const TOKEN_LIFETIME_SECS: i64 = 86400;

/// What `bcrypt::verify` answers for a password and a stored hash: whether they
/// match, or nothing when the hash cannot be read.
pub uninterp spec fn bcrypt_verifies(password: Seq<char>, hash: Seq<char>) -> Option<bool>;

/// What `jsonwebtoken::encode` produces for a token with the default header
/// (HS256) whose claims are the subject `sub` and the expiry `exp`, signed with `secret`.
pub uninterp spec fn jwt_encoding(sub: Seq<char>, exp: u64, secret: Seq<u8>) -> Seq<char>;

/// What `jsonwebtoken::decode` with the default validation finds as the `sub` claim
/// of `token` checked with `secret`, leaving out the one check that reads the clock
/// (that `exp` is not more than a minute in the past): the subject when the header
/// names HS256, the signature matches, an `exp` claim is a number, there is no `aud`
/// claim that reads as a string or a list of strings, and `sub` is a string;
/// nothing otherwise.
pub uninterp spec fn jwt_subject_apart_from_expiry(token: Seq<char>, secret: Seq<u8>) -> Option<Seq<char>>;

/// The form of a bcrypt hash made at the default cost: the prefix `$2b$12$`, then
/// 22 characters of salt and 31 of hash, 60 characters in all.
pub open spec fn bcrypt_default_form(h: Seq<char>) -> bool {
    h.len() == 60 && h.subrange(0, 7) == "$2b$12$"@
}

/// Calls `bcrypt::hash` with the crate's default cost. The salt is random, so the
/// hash is not a function of the password; what is claimed is that a hash it
/// returns verifies against the same password (`bcrypt::verify` recomputes the hash
/// with the salt and cost read back from it, truncating the password as `hash` did),
/// and that it has the form that `hash` formats: version `2b`, the cost as two
/// digits, the 16-byte salt and the 23-byte hash in bcrypt's unpadded base64.
/// Hashing fails only when the system's random source does, which is not claimed.
#[verifier::external_body]
fn bcrypt_hash(password: &str) -> (r: Result<String, String>)
    ensures
        r matches Ok(h) ==> bcrypt_verifies(password@, h@) == Some(true),
        r matches Ok(h) ==> bcrypt_default_form(h@),
{
    match bcrypt::hash(password, bcrypt::DEFAULT_COST) {
        Ok(h) => Ok(h),
        Err(e) => Err(e.to_string()),
    }
}

/// Calls `bcrypt::verify`: the answer is a function of the password and the hash,
/// named `bcrypt_verifies`; an error (an unreadable hash) carries its text.
#[verifier::external_body]
fn bcrypt_verify(password: &str, hash: &str) -> (r: Result<bool, String>)
    ensures
        r is Ok <==> bcrypt_verifies(password@, hash@) is Some,
        r matches Ok(b) ==> bcrypt_verifies(password@, hash@) == Some(b),
{
    match bcrypt::verify(password, hash) {
        Ok(b) => Ok(b),
        Err(e) => Err(e.to_string()),
    }
}

/// Reads the clock with `chrono::Utc::now().timestamp()`. `Utc::now` panics rather
/// than return a time before 1970 or outside chrono's range (years below 262143),
/// so a returned value is between 0 and 10^13 seconds; nothing else is claimed.
#[verifier::external_body]
fn now_timestamp() -> (r: i64)
    ensures
        0 <= r < 10_000_000_000_000,
{
    chrono::Utc::now().timestamp()
}

/// Calls `jsonwebtoken::encode` with the default header and the secret as an HMAC
/// key, on the claims object `{"sub": sub, "exp": exp}` (the map keeps the order in
/// which its entries were inserted, so `sub` is serialized first). The token is a function of
/// the subject, the expiry and the secret (named `jwt_encoding`). Encoding succeeds:
/// with the `rust_crypto` provider that this crate's features select, an HMAC key of
/// any length is accepted, the key's family matches HS256, and a header and a map of
/// a string and a number always serialize. The token decodes, signature and claims
/// checked with the same secret, to the subject `sub` (the expiry aside): it names
/// HS256, carries a numeric `exp`, no `aud`, and `sub` as a string.
#[verifier::external_body]
fn jwt_encode(sub: &str, exp: u64, secret: &[u8]) -> (r: Result<String, String>)
    ensures
        r is Ok,
        r matches Ok(t) ==> t@ == jwt_encoding(sub@, exp, secret@),
        r matches Ok(t) ==> jwt_subject_apart_from_expiry(t@, secret@) == Some(sub@),
{
    let mut claims = serde_json::Map::new();
    claims.insert("sub".to_string(), serde_json::Value::String(sub.to_string()));
    claims.insert("exp".to_string(), serde_json::Value::from(exp));
    let key = jsonwebtoken::EncodingKey::from_secret(secret);
    match jsonwebtoken::encode(&jsonwebtoken::Header::default(), &claims, &key) {
        Ok(t) => Ok(t),
        Err(e) => Err(e.to_string()),
    }
}

/// Calls `jsonwebtoken::decode` with the default validation (HS256 signature with
/// the secret, an `exp` claim not in the past) and hands back the `sub` claim when
/// the token is valid and its subject is a string. Whether an `exp` is in the past
/// depends on the current time, so a token that passes every other check may still
/// give nothing; what is claimed is that a subject it gives is the one that
/// `jwt_subject_apart_from_expiry` names.
#[verifier::external_body]
fn jwt_decode_subject(token: &str, secret: &[u8]) -> (r: Option<String>)
    ensures
        r matches Some(s) ==> jwt_subject_apart_from_expiry(token@, secret@) == Some(s@),
{
    let key = jsonwebtoken::DecodingKey::from_secret(secret);
    let validation = jsonwebtoken::Validation::default();
    match jsonwebtoken::decode::<serde_json::Map<String, serde_json::Value>>(token, &key, &validation) {
        Ok(data) => match data.claims.get("sub") {
            Some(serde_json::Value::String(s)) => Some(s.clone()),
            _ => None,
        },
        Err(_) => None,
    }
}

/// The claims of a token: the user ID as decimal text, and the expiry in seconds
/// since the epoch.
#[derive(Clone, Debug, PartialEq, Eq)]
pub struct Claims {
    pub sub: String,
    pub exp: u64,
}

/// A token could not be created.
#[derive(Clone, Debug)]
pub struct JwtCreationError {
    pub message: String,
}

/// A token was expired, forged, malformed or had no numeric subject.
#[derive(Clone, Copy, Debug, PartialEq, Eq)]
pub struct JwtValidationError;

impl Claims {
    /// Claims for user `id` issued at `now` (seconds since the epoch): the subject is
    /// the ID in decimal and the expiry is 24 hours later; a time that makes the
    /// expiry negative is refused as pre-1970.
    pub fn at(id: i32, now: i64) -> (r: Result<Claims, TechnicalError>)
        requires
            now <= i64::MAX - TOKEN_LIFETIME_SECS,
        ensures
            now + TOKEN_LIFETIME_SECS >= 0 ==> (r matches Ok(c) && c.sub@ == int_text(id as int) && c.exp == now + TOKEN_LIFETIME_SECS),
            now + TOKEN_LIFETIME_SECS < 0 ==> (r matches Err(TechnicalError::Pre1970(t)) && t == now),
    {
        let exp = now + TOKEN_LIFETIME_SECS;
        if exp < 0 {
            Err(TechnicalError::Pre1970(now))
        } else {
            Ok(Claims { sub: i32_text(id), exp: exp as u64 })
        }
    }

    /// Claims for user `id` that expire 24 hours from now.
    pub fn new(id: i32) -> (r: Result<Claims, TechnicalError>)
        ensures
            r matches Ok(c) && c.sub@ == int_text(id as int) && c.exp >= TOKEN_LIFETIME_SECS,
    {
        let now = now_timestamp();
        Claims::at(id, now)
    }
}

/// The token for user `id` issued at `now` (seconds since the epoch) and signed with
/// `secret`: subject the ID in decimal, expiry 24 hours after `now`.
pub open spec fn token_issued_at(id: i32, now: i64, secret: Seq<u8>) -> Seq<char> {
    jwt_encoding(int_text(id as int), (now + TOKEN_LIFETIME_SECS) as u64, secret)
}

/// Creates the token for user `id` issued at `now`: its claims are the ID in decimal
/// and the expiry 24 hours after `now`. A time whose expiry would fall before 1970 is
/// refused.
pub fn create_jwt_at(id: i32, now: i64, secret: &[u8]) -> (r: Result<String, JwtCreationError>)
    requires
        now <= i64::MAX - TOKEN_LIFETIME_SECS,
    ensures
        now + TOKEN_LIFETIME_SECS >= 0 ==> (r matches Ok(t) && t@ == token_issued_at(id, now, secret@)
            && jwt_subject_apart_from_expiry(t@, secret@) == Some(int_text(id as int))),
        now + TOKEN_LIFETIME_SECS < 0 ==> (r matches Err(e) && e.message@ == TechnicalError::Pre1970(now).spec_log_text()),
{
    let claims = match Claims::at(id, now) {
        Ok(c) => c,
        Err(e) => return Err(JwtCreationError { message: e.log_text() }),
    };
    match jwt_encode(claims.sub.as_str(), claims.exp, secret) {
        Ok(t) => Ok(t),
        Err(m) => Err(JwtCreationError { message: m }),
    }
}

/// Creates a token whose subject is the user ID, expiring 24 hours after the current
/// time. It always succeeds, and the token reads back (its expiry aside) as the same
/// subject.
pub fn create_jwt(id: i32, secret: &[u8]) -> (r: Result<String, JwtCreationError>)
    ensures
        r is Ok,
        r matches Ok(t) ==> exists|now: i64| 0 <= now < 10_000_000_000_000 && t@ == #[trigger] token_issued_at(id, now, secret@),
        r matches Ok(t) ==> jwt_subject_apart_from_expiry(t@, secret@) == Some(int_text(id as int)),
{
    let now = now_timestamp();
    create_jwt_at(id, now, secret)
}

/// The user ID of a token's subject: the subject must be present and read as an `i32`.
pub fn subject_id(sub: Option<String>) -> (r: Result<i32, JwtValidationError>)
    ensures
        sub matches Some(s) ==> r == (match parsed_i32(s@) {
            Some(id) => Ok::<i32, JwtValidationError>(id),
            None => Err::<i32, JwtValidationError>(JwtValidationError),
        }),
        sub is None ==> r is Err,
{
    match sub {
        None => Err(JwtValidationError),
        Some(s) => match parse_i32(s.as_str()) {
            Some(id) => Ok(id),
            None => Err(JwtValidationError),
        },
    }
}

/// Validates a token and reads the user ID from its subject. An ID is returned only
/// when the token passes the checks with `secret` and its subject reads as that ID;
/// a token that passes them may still be refused as expired.
pub fn verify_jwt(token: &str, secret: &[u8]) -> (r: Result<i32, JwtValidationError>)
    ensures
        r matches Ok(id) ==> (jwt_subject_apart_from_expiry(token@, secret@) matches Some(s) && parsed_i32(s) == Some(id)),
        jwt_subject_apart_from_expiry(token@, secret@) is None ==> r is Err,
{
    subject_id(jwt_decode_subject(token, secret))
}

/// The subject that a token for `id` carries reads back as `id`.
pub proof fn law_subject_round_trip(id: i32)
    ensures
        parsed_i32(int_text(id as int)) == Some(id),
{
    crate::text::lemma_text_round_trip(id);
}

/// The answer to a bearer token whose validation gave the subject `decoded`: the ID
/// that the subject reads as, or an authentication failure.
pub open spec fn validation_of(decoded: Option<Seq<char>>) -> Result<i32, DomainError> {
    match decoded {
        Some(s) => match parsed_i32(s) {
            Some(id) => Ok(id),
            None => Err(DomainError::Auth(AuthError::JwtValidation)),
        },
        None => Err(DomainError::Auth(AuthError::JwtValidation)),
    }
}

/// The answer to a bearer token once its signature and claims were checked and
/// `decoded` is the subject found (nothing when the token was refused): a subject
/// that reads as an `i32` is accepted as that user ID; anything else is an
/// authentication failure.
pub fn token_validation_result(decoded: Option<String>) -> (r: Result<i32, DomainError>)
    ensures
        r == validation_of(match decoded { Some(s) => Some(s@), None => None }),
        forall|id: i32| (decoded matches Some(s) && parsed_i32(s@) == Some(id)) ==> r == Ok::<i32, DomainError>(id),
        decoded is None ==> r == Err::<i32, DomainError>(DomainError::Auth(AuthError::JwtValidation)),
        decoded matches Some(s) && parsed_i32(s@) is None ==> r == Err::<i32, DomainError>(DomainError::Auth(AuthError::JwtValidation)),
{
    match subject_id(decoded) {
        Ok(id) => Ok(id),
        Err(_) => Err(DomainError::Auth(AuthError::JwtValidation)),
    }
}

/// Validation is complete and sound for the subjects that tokens are issued with:
/// the subject of the token issued for any user `id` is accepted, and as `id`
/// itself; and a subject is accepted as `id` only when it reads as `id`.
pub proof fn law_issued_subject_validates(id: i32, s: Seq<char>)
    ensures
        validation_of(Some(int_text(id as int))) == Ok::<i32, DomainError>(id),
        validation_of(Some(s)) == Ok::<i32, DomainError>(id) <==> parsed_i32(s) == Some(id),
        validation_of(None) is Err,
{
    crate::text::lemma_text_round_trip(id);
}

/// Validates a token, returning the contained user ID if valid; any failure is an
/// authentication failure.
pub fn validate_jwt(token: &str, secret: &str) -> (r: Result<i32, DomainError>)
    ensures
        r matches Ok(id) ==> (jwt_subject_apart_from_expiry(token@, secret.spec_bytes()) matches Some(s) && parsed_i32(s) == Some(id)),
        jwt_subject_apart_from_expiry(token@, secret.spec_bytes()) is None ==> r is Err,
        r matches Err(e) ==> e == DomainError::Auth(AuthError::JwtValidation),
{
    token_validation_result(jwt_decode_subject(token, secret.as_bytes()))
}

/// The outcome of checking a password against a stored hash: a technical failure when
/// the hash cannot be read, "invalid password" when they do not match.
pub fn password_check(verdict: Result<bool, String>) -> (r: Result<(), DomainError>)
    ensures
        verdict == Ok::<bool, String>(true) ==> r is Ok,
        verdict == Ok::<bool, String>(false) ==> r == Err::<(), DomainError>(DomainError::Auth(AuthError::InvalidPassword)),
        verdict matches Err(m) ==> r == Err::<(), DomainError>(DomainError::Technical(TechnicalError::Bcrypt(m))),
{
    match verdict {
        Ok(true) => Ok(()),
        Ok(false) => Err(DomainError::Auth(AuthError::InvalidPassword)),
        Err(m) => Err(DomainError::Technical(TechnicalError::Bcrypt(m))),
    }
}

/// Hashes the password of a registration and makes the user to store.
pub fn hash_pw(reg: UserRegistration) -> (r: Result<NewUser, DomainError>)
    ensures
        r matches Ok(u) ==> u.name == reg.name && u.email == reg.email && u.username == reg.username
            && bcrypt_verifies(reg.password@, u.password_hash@) == Some(true)
            && bcrypt_default_form(u.password_hash@),
        r matches Err(e) ==> e matches DomainError::Technical(TechnicalError::Bcrypt(_)),
{
    match bcrypt_hash(reg.password.as_str()) {
        Ok(h) => Ok(reg.into_new_user_with(h)),
        Err(m) => Err(DomainError::Technical(TechnicalError::Bcrypt(m))),
    }
}

/// Creates a token after verifying the password. There is no way to create a token
/// without first verifying the password.
pub fn jwt_if_valid_pw(user: &User, password: &str, secret: &str) -> (r: Result<String, DomainError>)
    ensures
        bcrypt_verifies(password@, user.password_hash@) is None ==> r matches Err(DomainError::Technical(TechnicalError::Bcrypt(_))),
        bcrypt_verifies(password@, user.password_hash@) == Some(false) ==> r == Err::<String, DomainError>(DomainError::Auth(AuthError::InvalidPassword)),
        bcrypt_verifies(password@, user.password_hash@) == Some(true) ==> r is Ok,
        r matches Ok(t) ==> bcrypt_verifies(password@, user.password_hash@) == Some(true)
            && exists|now: i64| 0 <= now < 10_000_000_000_000 && t@ == #[trigger] token_issued_at(user.id, now, secret.spec_bytes()),
        r matches Ok(t) ==> jwt_subject_apart_from_expiry(t@, secret.spec_bytes()) == Some(int_text(user.id as int)),
{
    let verdict = bcrypt_verify(password, user.password_hash.as_str());
    if let Err(e) = password_check(verdict) {
        return Err(e);
    }
    match create_jwt(user.id, secret.as_bytes()) {
        Ok(t) => Ok(t),
        Err(e) => Err(DomainError::Technical(TechnicalError::TokenCreation(e.message))),
    }
}

/// Checks an email's user and a password: a missing user is an invalid email, a
/// wrong password an invalid password.
pub fn validate_credentials(found: Option<User>, password: &str) -> (r: Result<User, DomainError>)
    ensures
        found is None ==> r == Err::<User, DomainError>(DomainError::Auth(AuthError::InvalidEmail)),
        found matches Some(u) ==> ({
            let v = bcrypt_verifies(password@, u.password_hash@);
            &&& v == Some(true) ==> r == Ok::<User, DomainError>(u)
            &&& v == Some(false) ==> r == Err::<User, DomainError>(DomainError::Auth(AuthError::InvalidPassword))
            &&& v is None ==> r matches Err(DomainError::Technical(TechnicalError::Bcrypt(_)))
        }),
{
    let user = match found {
        Some(u) => u,
        None => return Err(DomainError::Auth(AuthError::InvalidEmail)),
    };
    let verdict = bcrypt_verify(password, user.password_hash.as_str());
    match password_check(verdict) {
        Ok(()) => Ok(user),
        Err(e) => Err(e),
    }
}

/// A login token reads back as its user: a token whose subject is the text of `id`,
/// checked with the secret that signed it, can give no other ID than `id`; so when
/// `validate_jwt` accepts the token of a login, it returns the ID of the user who
/// logged in.
pub proof fn law_login_token_names_its_user(token: Seq<char>, secret: Seq<u8>, id: i32)
    requires
        jwt_subject_apart_from_expiry(token, secret) == Some(int_text(id as int)),
    ensures
        jwt_subject_apart_from_expiry(token, secret) matches Some(s) && parsed_i32(s) == Some(id),
{
    crate::text::lemma_text_round_trip(id);
}

/// A password that was hashed for a registration passes the credential check of the
/// stored user: registering and then logging in with the same password succeeds.
pub proof fn law_registered_password_verifies(reg: UserRegistration, stored: NewUser, user: User)
    requires
        stored.name == reg.name && stored.email == reg.email && stored.username == reg.username,
        bcrypt_verifies(reg.password@, stored.password_hash@) == Some(true),
        user.spec_matches(stored),
    ensures
        bcrypt_verifies(reg.password@, user.password_hash@) == Some(true),
{
}

} // verus!
