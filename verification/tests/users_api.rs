use spur_api::api::{
    add_friend_response, bad_request, friendship_failure_response, friendship_outcome_response, unauthorized_token,
    ApiError, AppConfig, ErrorResponse, SuccessResponse, ValidatedJson,
};
use spur_api::errors::{
    AuthError, ContentError, DbError, DomainError, FriendshipError, PromptError, TechnicalError, UserError,
};
use spur_api::friendship::FriendshipOutcome;
use spur_api::insertion::{InsertionError, SqlxErrExt};
use spur_api::users::{
    found_user, insert_new_result, registration_error, user_insertion_error, NewUser, SignupRequest, User,
    UserRegistration,
};

fn new_alice() -> NewUser {
    NewUser {
        name: String::from("New Alice"),
        email: String::from("alice_new@example.com"),
        username: String::from("new_alice"),
        password_hash: String::from("$$hh%%hhYAY"),
    }
}

fn unique(constraint: &str) -> InsertionError {
    InsertionError::UniqueViolation(String::from(constraint))
}

#[test]
fn user_errors_for_existing_email() {
    let _alice = new_alice();
    let result = insert_new_result(Err(unique("users_email_unique")));
    assert!(matches!(result, Err(DomainError::User(UserError::DuplicateEmail))));
}

#[test]
fn user_errors_for_existing_username() {
    let _alice = new_alice();
    let result = insert_new_result(Err(unique("users_username_unique")));
    assert!(matches!(result, Err(DomainError::User(UserError::DuplicateUsername))));
}

#[test]
fn user_correctly_creates_new_user_from_request() {
    let alice_id = 88;
    assert!(insert_new_result(Ok(alice_id)).is_ok_and(|id| id == alice_id));
}

#[test]
fn unexpected_unique_violation_is_technical() {
    let result = user_insertion_error(unique("some unique constraint violation here"));
    assert!(matches!(result, DomainError::Technical(TechnicalError::Unexpected(m))
        if m == "Unexpected unique violation: some unique constraint violation here"));
    let both = user_insertion_error(unique("email_and_username"));
    assert!(matches!(both, DomainError::User(UserError::DuplicateEmail)));
}

#[test]
fn auth_svc_errors_for_existing_email() {
    assert!(matches!(registration_error(unique("users_email_unique")), DomainError::Auth(AuthError::DuplicateEmail)));
}

#[test]
fn auth_svc_errors_for_existing_username() {
    assert!(matches!(registration_error(unique("users_username_unique")), DomainError::Auth(AuthError::DuplicateUsername)));
}

#[test]
fn auth_svc_correctly_creates_new_user_from_request() {
    let reg = UserRegistration {
        name: String::from("New Alice"),
        email: String::from("alice_new@example.com"),
        username: String::from("new_alice"),
        password: String::from("secret"),
    };
    let u = reg.clone().into_new_user_with(String::from("hash"));
    assert_eq!(u, NewUser { name: reg.name, email: reg.email, username: reg.username, password_hash: String::from("hash") });
}

#[test]
fn technical_insertion_failure_stays_technical() {
    let e = DbError { message: String::from("boom"), code: Some(String::from("08006")), constraint: None };
    assert!(matches!(registration_error(InsertionError::Technical(e)), DomainError::Technical(TechnicalError::Database(d)) if d.message == "boom"));
}

#[test]
fn errors_for_nonexistent_users() {
    assert!(matches!(found_user(None), Err(DomainError::User(UserError::NotFound))));
}

#[test]
fn retrieves_existing_users() {
    let alice = User {
        id: 62,
        name: String::from("Alice Palace"),
        email: String::from("alice@palace.org"),
        username: String::from("al_is"),
        password_hash: String::from("ab%#S"),
        created_at: 0,
    };
    assert_eq!(found_user(Some(alice.clone())).expect("failed to get by id"), alice);
}

#[test]
fn signup_request_becomes_registration_and_new_user() {
    let req = SignupRequest {
        name: String::from("Dan"),
        email: String::from("danny@mail.fail"),
        username: String::from("danny_dan"),
        password: String::from("pw"),
    };
    let reg: UserRegistration = req.clone().into();
    assert_eq!(reg.password, "pw");
    let nu = NewUser::from_request(req, String::from("h"));
    assert_eq!(nu.username, "danny_dan");
    assert_eq!(nu.password_hash, "h");
}

#[test]
fn classifies_database_failures() {
    let unique_named = DbError { message: String::from("dup"), code: Some(String::from("23505")), constraint: Some(String::from("users_email_unique")) };
    let unique_unnamed = DbError { message: String::from("dup"), code: Some(String::from("23505")), constraint: None };
    let other = DbError { message: String::from("no"), code: Some(String::from("23503")), constraint: Some(String::from("fk")) };
    let not_pg = DbError { message: String::from("pool closed"), code: None, constraint: None };
    assert!(unique_named.is_unique_violation());
    assert!(!other.is_unique_violation());
    assert!(!not_pg.is_unique_violation());
    assert!(matches!(InsertionError::from_db(unique_named), InsertionError::UniqueViolation(n) if n == "users_email_unique"));
    assert!(matches!(InsertionError::from_db(unique_unnamed), InsertionError::UniqueViolation(n) if n == "<unnamed unique constraint>"));
    assert!(matches!(InsertionError::from_db(other), InsertionError::Technical(d) if d.message == "no"));
    assert!(matches!(InsertionError::from_db(not_pg), InsertionError::Technical(_)));
}

#[test]
fn statuses_of_every_failure() {
    let cases: Vec<(ApiError, u16)> = vec![
        (ApiError::Request(String::from("email: bad")), 400),
        (ApiError::Token, 401),
        (ApiError::Domain(DomainError::Auth(AuthError::DuplicateEmail)), 409),
        (ApiError::Domain(DomainError::Auth(AuthError::DuplicateUsername)), 409),
        (ApiError::Domain(DomainError::Auth(AuthError::InvalidEmail)), 401),
        (ApiError::Domain(DomainError::Auth(AuthError::InvalidPassword)), 401),
        (ApiError::Domain(DomainError::Auth(AuthError::JwtValidation)), 401),
        (ApiError::Domain(DomainError::User(UserError::NotFound)), 404),
        (ApiError::Domain(DomainError::User(UserError::DuplicateEmail)), 409),
        (ApiError::Domain(DomainError::User(UserError::DuplicateUsername)), 409),
        (ApiError::Domain(DomainError::Friendship(FriendshipError::SelfFriendship)), 400),
        (ApiError::Domain(DomainError::Friendship(FriendshipError::NonexistentUser)), 404),
        (ApiError::Domain(DomainError::Friendship(FriendshipError::AlreadyFriends)), 409),
        (ApiError::Domain(DomainError::Friendship(FriendshipError::AlreadyRequested)), 409),
        (ApiError::Domain(DomainError::Content(ContentError::DuplicatePrompt)), 409),
        (ApiError::Domain(DomainError::Content(ContentError::DuplicatePost)), 409),
        (ApiError::Domain(DomainError::Content(ContentError::OwnPrompt)), 400),
        (ApiError::Domain(DomainError::Content(ContentError::NotFound)), 404),
        (ApiError::Domain(DomainError::Content(ContentError::NotFriends)), 403),
        (ApiError::Domain(DomainError::Prompt(PromptError::Duplicate)), 409),
        (ApiError::Domain(DomainError::Prompt(PromptError::NotFound)), 404),
        (ApiError::Domain(DomainError::Prompt(PromptError::NotFriends)), 403),
        (ApiError::Domain(DomainError::Technical(TechnicalError::Other(String::from("x")))), 500),
    ];
    for (e, status) in cases {
        assert_eq!(e.status(), status, "{e:?}");
    }
}

#[test]
fn messages_hide_technical_details() {
    let tech = ApiError::Domain(DomainError::Technical(TechnicalError::Bcrypt(String::from("secret detail"))));
    assert_eq!(tech.response(), (500, ErrorResponse { error: String::from("Internal server error") }));
    assert_eq!(ApiError::Token.message(), "Expired or invalid token");
    assert_eq!(ApiError::Request(String::from("email: not a valid email address")).message(), "email: not a valid email address");
    assert_eq!(
        ApiError::Domain(DomainError::Friendship(FriendshipError::AlreadyFriends)).message(),
        "Already friends with this user"
    );
    assert_eq!(
        ApiError::Domain(DomainError::Content(ContentError::OwnPrompt)).message(),
        "Cannot write a post in response to one's own prompt"
    );
    assert_eq!(TechnicalError::Pre1970(-5).log_text(), "Unexpected pre-1970 system time: -5");
    assert_eq!(
        TechnicalError::Database(DbError { message: String::from("gone"), code: None, constraint: None }).log_text(),
        "Database error: gone"
    );
}

#[test]
fn friend_request_answers() {
    assert_eq!(add_friend_response(true, "bob"), (200, SuccessResponse { message: String::from("You are now friends with bob") }));
    assert_eq!(add_friend_response(false, "bob"), (201, SuccessResponse { message: String::from("Created a friend request to bob") }));
    assert_eq!(
        friendship_outcome_response(FriendshipOutcome::AlreadyFriends, "amy"),
        Err((409, ErrorResponse { error: String::from("You are already friends with amy") }))
    );
    assert_eq!(
        friendship_outcome_response(FriendshipOutcome::AlreadyRequested, "amy"),
        Err((409, ErrorResponse { error: String::from("You already have a pending friend request to amy") }))
    );
    assert_eq!(
        friendship_outcome_response(FriendshipOutcome::BecameFriends, "amy"),
        Ok((200, SuccessResponse { message: String::from("You are now friends with amy") }))
    );
    assert_eq!(
        friendship_outcome_response(FriendshipOutcome::CreatedRequest, "amy"),
        Ok((201, SuccessResponse { message: String::from("Created friend request to amy") }))
    );
    assert_eq!(friendship_failure_response(), (500, ErrorResponse { error: String::from("failed to add friend") }));
    assert_eq!(bad_request(String::from("nope")), (400, ErrorResponse { error: String::from("nope") }));
    assert_eq!(unauthorized_token(), (401, ErrorResponse { error: String::from("expired or invalid token") }));
}

#[test]
fn config_reports_the_first_missing_setting() {
    let s = |v: &str| Some(String::from(v));
    assert_eq!(AppConfig::from_settings(None, s("b"), s("j")), Err(String::from("failed to load DATABASE_URL")));
    assert_eq!(AppConfig::from_settings(s("d"), None, None), Err(String::from("failed to load BIND_ADDR")));
    assert_eq!(AppConfig::from_settings(s("d"), s("b"), None), Err(String::from("failed to load JWT_SECRET")));
    assert_eq!(
        AppConfig::from_settings(s("d"), s("b"), s("j")),
        Ok(AppConfig { database_url: String::from("d"), bind_addr: String::from("b"), jwt_secret: String::from("j") })
    );
    let v = ValidatedJson(5u8);
    assert_eq!(*v.inner(), 5);
}
