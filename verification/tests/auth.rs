use chrono::{DateTime, Days, Utc};
use spur_api::auth::{create_jwt, create_jwt_at, jwt_if_valid_pw, validate_jwt, verify_jwt, Claims, hash_pw, subject_id, password_check, validate_credentials, JwtValidationError, TOKEN_LIFETIME_SECS};
use spur_api::errors::{AuthError, DomainError, TechnicalError};
use spur_api::users::{User, UserRegistration};

fn within_one_second(dt1: DateTime<Utc>, dt2: DateTime<Utc>) -> bool {
    (dt1 - dt2).num_milliseconds().abs() < 1000
}

fn make_bob(password: &str) -> User {
    User {
        id: 55,
        name: String::from("Bobby Robertson"),
        email: String::from("rob@bob.net"),
        username: String::from("amazing_robby_7"),
        password_hash: bcrypt::hash(password, bcrypt::DEFAULT_COST).expect("failed to hash password"),
        created_at: Utc::now()
            .checked_sub_days(Days::new(1))
            .expect("failed to subtract a day from now")
            .timestamp_millis(),
    }
}

#[test]
fn claims_converts_types_and_calculates_expiration() {
    let id = 825;
    let tomorrow = Utc::now().checked_add_days(Days::new(1)).expect("failed to compute tomorrow");

    let claims = Claims::new(id).expect("failed to create claims");

    let exp = DateTime::from_timestamp(claims.exp.try_into().expect("failed to convert u64 to i64"), 0)
        .expect("failed to create datetime");

    assert!(within_one_second(exp, tomorrow));
    assert_eq!(claims.sub, id.to_string());
}

#[test]
fn converts_types_and_calculates_expiration() {
    let id = 825;
    let tomorrow = Utc::now().checked_add_days(Days::new(1)).expect("failed to compute tomorrow");

    let claims = Claims::new(id).expect("failed to create claims");

    let exp = DateTime::from_timestamp(claims.exp.try_into().expect("failed to convert u64 to i64"), 0)
        .expect("failed to create datetime");

    assert!((exp - tomorrow).num_seconds().abs() <= 1);
    assert_eq!(claims.sub, id.to_string());
}

#[test]
fn auth_encodes_and_decodes_id_for_valid_pw() {
    let correct_pw = "Bob's password";
    let secret = "shh_hhh_hhh";

    let bob = make_bob(correct_pw);
    let token = jwt_if_valid_pw(&bob, correct_pw, secret).expect("failed to create JWT for valid password");

    let id = validate_jwt(&token, secret).expect("failed to validate token");
    assert_eq!(id, bob.id);
}

#[test]
fn auth_token_creation_errors_for_invalid_pw() {
    let bob = make_bob("correct password");
    let result = jwt_if_valid_pw(&bob, "incorrect password", "top secret");
    assert!(matches!(result, Err(DomainError::Auth(AuthError::InvalidPassword))), "{}", format!("{result:?}"));
}

#[test]
fn auth_validation_errors_for_invalid_token() {
    let password = "53cur1ty";
    let bob = make_bob(password);
    let secret = "no one's gonna know";

    let _ = jwt_if_valid_pw(&bob, password, secret).expect("failed to create token");
    assert!(matches!(validate_jwt("fake token", secret), Err(DomainError::Auth(AuthError::JwtValidation))));
}

#[test]
fn auth_validation_errors_for_invalid_secret() {
    let password = "pa$$ed654wood&24b1";
    let bob = make_bob(password);
    let secret = "shh";

    let token = jwt_if_valid_pw(&bob, password, secret).expect("failed to create token");
    assert!(matches!(validate_jwt(&token, "boo!"), Err(DomainError::Auth(AuthError::JwtValidation))));
}

#[test]
fn encodes_and_decodes() {
    let id = 783;
    let secret = "super_duper_secret".as_ref();

    let token = create_jwt(id, secret).expect("failed to create token");
    let got_id = verify_jwt(&token, secret).expect("failed to verify token");

    assert_eq!(got_id, id);
}

#[test]
fn errors_for_invalid_token() {
    let id = 4621;
    let secret = "no one's gonna know".as_ref();

    let _ = create_jwt(id, secret).expect("failed to create token");
    assert!(verify_jwt("fake token", secret).is_err());
}

#[test]
fn errors_for_invalid_secret() {
    let id = 999;
    let secret = "shh".as_ref();

    let token = create_jwt(id, secret).expect("failed to create token");
    assert!(verify_jwt(&token, "boo!".as_ref()).is_err());
}

#[test]
fn claims_at_adds_a_day_and_refuses_pre_1970_expiry() {
    let c = Claims::at(-12, 1_000).expect("claims at a valid time");
    assert_eq!(c.sub, "-12");
    assert_eq!(c.exp, 1_000 + TOKEN_LIFETIME_SECS as u64);
    let early = Claims::at(7, -86_400).expect("expiry exactly at the epoch");
    assert_eq!(early.exp, 0);
    assert!(matches!(Claims::at(7, -86_401), Err(TechnicalError::Pre1970(-86_401))));
}

#[test]
fn negative_and_extreme_ids_round_trip_through_tokens() {
    let secret = b"round trip";
    for id in [i32::MIN, -1, 0, 1, i32::MAX] {
        let token = create_jwt(id, secret).expect("failed to create token");
        assert_eq!(verify_jwt(&token, secret), Ok(id));
    }
}

#[test]
fn subject_must_be_a_decimal_i32() {
    assert_eq!(subject_id(Some(String::from("42"))), Ok(42));
    assert_eq!(subject_id(Some(String::from("+42"))), Ok(42));
    assert_eq!(subject_id(Some(String::from("-2147483648"))), Ok(i32::MIN));
    assert_eq!(subject_id(Some(String::from("2147483648"))), Err(JwtValidationError));
    assert_eq!(subject_id(Some(String::from("4 2"))), Err(JwtValidationError));
    assert_eq!(subject_id(Some(String::new())), Err(JwtValidationError));
    assert_eq!(subject_id(None), Err(JwtValidationError));
}

#[test]
fn password_check_maps_each_verdict() {
    assert!(password_check(Ok(true)).is_ok());
    assert!(matches!(password_check(Ok(false)), Err(DomainError::Auth(AuthError::InvalidPassword))));
    assert!(matches!(password_check(Err(String::from("bad hash"))), Err(DomainError::Technical(TechnicalError::Bcrypt(m))) if m == "bad hash"));
}

#[test]
fn hashed_registration_passes_credential_check() {
    let reg = UserRegistration {
        name: String::from("New Alice"),
        email: String::from("alice_new@example.com"),
        username: String::from("new_alice"),
        password: String::from("secret"),
    };
    let new_user = hash_pw(reg.clone()).expect("failed to hash password");
    assert_eq!(new_user.name, reg.name);
    assert_eq!(new_user.email, reg.email);
    assert_eq!(new_user.username, reg.username);
    assert!(bcrypt::verify("secret", &new_user.password_hash).expect("failed to verify password hash"));

    let stored = User {
        id: 1,
        name: new_user.name.clone(),
        email: new_user.email.clone(),
        username: new_user.username.clone(),
        password_hash: new_user.password_hash.clone(),
        created_at: 0,
    };
    assert!(stored.matches(&new_user));
    assert_eq!(validate_credentials(Some(stored.clone()), "secret").expect("valid credentials"), stored);
}

#[test]
fn errors_for_invalid_email() {
    let password = String::from("extremely secure");
    let result = validate_credentials(None, &password);
    assert!(matches!(result, Err(DomainError::Auth(AuthError::InvalidEmail))));
}

#[test]
fn errors_for_invalid_password() {
    let correct_bob = User {
        id: 42,
        name: String::from("Bob"),
        email: String::from("bob@email.co.uk"),
        username: String::from("bobby_bob"),
        password_hash: bcrypt::hash("correct password", bcrypt::DEFAULT_COST).expect("failed to hash password"),
        created_at: Utc::now().timestamp_millis(),
    };
    let incorrect_password = String::from("incorrect password");
    let result = validate_credentials(Some(correct_bob), &incorrect_password);
    assert!(matches!(result, Err(DomainError::Auth(AuthError::InvalidPassword))));
}

#[test]
fn returns_user_for_valid_credentials() {
    let password = String::from("correct password");
    let correct_bob = User {
        id: 42,
        name: String::from("Bob"),
        email: String::from("bob@email.co.uk"),
        username: String::from("bobby_bob"),
        password_hash: bcrypt::hash(&password, bcrypt::DEFAULT_COST).expect("failed to hash password"),
        created_at: Utc::now().timestamp_millis(),
    };
    let also_bob = correct_bob.clone();
    match validate_credentials(Some(also_bob), &password) {
        Ok(user) => assert_eq!(user, correct_bob),
        other => panic!("unexpected result: {other:?}"),
    }
}

#[test]
fn unreadable_hash_is_a_technical_failure() {
    let mut bob = make_bob("pw");
    bob.password_hash = String::from("not a bcrypt hash");
    assert!(matches!(jwt_if_valid_pw(&bob, "pw", "s"), Err(DomainError::Technical(TechnicalError::Bcrypt(_)))));
    assert!(matches!(validate_credentials(Some(bob), "pw"), Err(DomainError::Technical(TechnicalError::Bcrypt(_)))));
}

#[test]
fn tokens_are_made_and_read_back_with_any_secret_length() {
    for secret in [&b""[..], &b"k"[..], &[7u8; 200][..]] {
        let token = create_jwt(-17, secret).expect("token creation never fails");
        assert_eq!(verify_jwt(&token, secret), Ok(-17));
    }
}

#[test]
fn token_claims_carry_the_subject_before_the_expiry() {
    let secret = b"shh";
    let token = create_jwt(55, secret).expect("token creation never fails");
    let data = jsonwebtoken::decode::<serde_json::Map<String, serde_json::Value>>(
        &token,
        &jsonwebtoken::DecodingKey::from_secret(secret),
        &jsonwebtoken::Validation::default(),
    )
    .expect("a fresh token is valid");
    let keys: Vec<&str> = data.claims.keys().map(String::as_str).collect();
    assert_eq!(keys, vec!["sub", "exp"]);
    assert_eq!(data.claims["sub"], serde_json::Value::String("55".to_string()));
}

#[test]
fn login_token_validates_back_to_the_user() {
    let bob = make_bob("hunter2");
    let token = jwt_if_valid_pw(&bob, "hunter2", "shh").expect("verified password gives a token");
    assert_eq!(validate_jwt(&token, "shh").unwrap(), bob.id);
    assert!(validate_jwt(&token, "boo!").is_err());
}

#[test]
fn hashed_passwords_have_the_bcrypt_form() {
    let reg = UserRegistration {
        name: String::from("New Alice"),
        email: String::from("alice_new@example.com"),
        username: String::from("new_alice"),
        password: String::from("secret"),
    };
    let user = hash_pw(reg).expect("hashing succeeds");
    assert_eq!(user.password_hash.len(), 60);
    assert!(user.password_hash.starts_with("$2b$12$"));
    assert_ne!(user.password_hash, "secret");
}

#[test]
fn token_issued_at_a_given_time_expires_a_day_later() {
    let secret = b"shh";
    let token = create_jwt_at(55, 1_000_000, secret).expect("a time after 1970 gives a token");
    let mut claims = serde_json::Map::new();
    claims.insert("sub".to_string(), serde_json::Value::String("55".to_string()));
    claims.insert("exp".to_string(), serde_json::Value::from(1_086_400u64));
    let expected = jsonwebtoken::encode(
        &jsonwebtoken::Header::default(),
        &claims,
        &jsonwebtoken::EncodingKey::from_secret(secret),
    )
    .unwrap();
    assert_eq!(token, expected);

    // A day before 1970 is the earliest time accepted; a second earlier is refused.
    assert!(create_jwt_at(55, -86_400, secret).is_ok());
    let refused = create_jwt_at(55, -86_401, secret).unwrap_err();
    assert!(refused.message.contains("-86401"), "{}", refused.message);
}
