use bearer_auth::config::Configuration;
use bearer_auth::credentials::{authenticate, sign_in, sign_in_at, Lookup};
use bearer_auth::error::{DatabaseFailure, MyError};
use bearer_auth::requests::LoginRequest;
use bearer_auth::token::{issue_at, issue_subject_at, validate_at};
use bearer_auth::users::Users;

fn settings() -> Configuration {
    Configuration::new(b"secret".to_vec(), 3600)
}

fn alice(id: i32) -> Users {
    Users {
        id,
        name: "Alice".to_string(),
        email: "alice@example.com".to_string(),
        username: "alice".to_string(),
        password: bcrypt::hash("secret1", 4).unwrap(),
    }
}

fn store(username: &str) -> Lookup {
    if username == "alice" {
        Lookup::Found(alice(17))
    } else {
        Lookup::Missing
    }
}

fn login(username: &str, password: &str) -> LoginRequest {
    LoginRequest { username: username.to_string(), password: password.to_string() }
}

#[test]
fn successful_sign_in() {
    assert_eq!(authenticate(store("alice"), "secret1"), Ok(17));
    assert_eq!(authenticate(store("alice"), "wrong12"), Err(MyError::Unauthorized));
    assert_eq!(authenticate(store("bob"), "whatever"), Err(MyError::NotFound));
}

#[test]
fn authenticate_checks_against_a_known_hash() {
    let user = Users {
        id: 3,
        name: String::new(),
        email: String::new(),
        username: "u".to_string(),
        password: "$2a$06$DCq7YPn5Rq63x1Lad4cll.TV4S6ytwfsfvkgY8jIucDrjc8deX1s.".to_string(),
    };
    assert_eq!(authenticate(Lookup::Found(user.clone()), ""), Ok(3));
    assert_eq!(authenticate(Lookup::Found(user), "a"), Err(MyError::Unauthorized));
}

#[test]
fn authenticate_is_exact_about_the_password() {
    for wrong in ["", "secret", "secret11", "Secret1", " secret1", "secret1 ", "secret2"] {
        assert_eq!(authenticate(store("alice"), wrong), Err(MyError::Unauthorized));
    }
}

#[test]
fn malformed_hash_is_unauthorized() {
    for hash in ["", "secret1", "$2b$04$short", "plain text that is sixty characters long, to the character.."] {
        let mut user = alice(1);
        user.password = hash.to_string();
        assert_eq!(authenticate(Lookup::Found(user), "secret1"), Err(MyError::Unauthorized));
    }
}

#[test]
fn store_failure_is_passed_on() {
    let failure = DatabaseFailure { report: None, text: "pool timed out".to_string() };
    assert_eq!(
        authenticate(Lookup::Failed(failure.clone()), "secret1"),
        Err(MyError::DatabaseError(failure))
    );
}

#[test]
fn sign_in_issues_a_token_for_the_user() {
    let config = settings();
    let response = sign_in_at(&config, &login("alice", "secret1"), store("alice"), 1000).unwrap();
    assert_eq!(response.code, 200);
    assert_eq!(response.message, "");
    assert_eq!(response.data, issue_at(&config, 17, 1000).unwrap());
    assert_eq!(response.data.expires_at, 4600);
    let claims = validate_at(&config, &response.data.token, 1000).unwrap();
    assert_eq!(claims.sub, "17");
}

#[test]
fn sign_in_by_the_clock_issues_a_live_token() {
    let config = settings();
    let response = sign_in(&config, &login("alice", "secret1"), store("alice")).unwrap();
    assert_eq!(response.code, 200);
    assert_eq!(response.message, "");
    let claims = bearer_auth::token::validate(&config, &response.data.token).unwrap();
    assert_eq!(claims.sub, "17");
    assert_eq!(claims.exp, response.data.expires_at);
}

#[test]
fn sign_in_fails_as_authenticate_does() {
    let config = settings();
    assert_eq!(
        sign_in_at(&config, &login("alice", "wrong12"), store("alice"), 1000),
        Err(MyError::Unauthorized)
    );
    assert_eq!(
        sign_in_at(&config, &login("bob", "whatever"), store("bob"), 1000),
        Err(MyError::NotFound)
    );
    assert_eq!(sign_in(&config, &login("alice", "wrong12"), store("alice")), Err(MyError::Unauthorized));
    assert_eq!(sign_in(&config, &login("bob", "whatever"), store("bob")), Err(MyError::NotFound));
}

#[test]
fn sign_in_refuses_a_request_that_breaks_its_rules() {
    let config = settings();
    let short = login("alice", "s1");
    let expected = short.validate().unwrap_err();
    assert_eq!(expected.errors.len(), 1);
    assert_eq!(
        sign_in_at(&config, &short, store("alice"), 1000),
        Err(MyError::ValidationError(expected.clone()))
    );
    assert_eq!(sign_in(&config, &short, Lookup::Missing), Err(MyError::ValidationError(expected)));
}

#[test]
fn sign_in_without_settings_is_an_internal_error() {
    let config = Configuration { secret_key: None, token_lifetime_seconds: None };
    assert_eq!(
        sign_in_at(&config, &login("alice", "secret1"), store("alice"), 1000),
        Err(MyError::InternalError)
    );
    assert_eq!(
        sign_in(&config, &login("alice", "secret1"), store("alice")),
        Err(MyError::InternalError)
    );
    assert_eq!(
        sign_in_at(&config, &login("alice", "wrong12"), store("alice"), 1000),
        Err(MyError::Unauthorized)
    );
}

#[test]
fn sign_in_names_a_negative_id_with_its_sign() {
    let config = settings();
    let response = sign_in_at(&config, &login("alice", "secret1"), Lookup::Found(alice(-1)), 0).unwrap();
    assert_eq!(response.data, issue_subject_at(&config, "-1", 0).unwrap());
    let claims = validate_at(&config, &response.data.token, 0).unwrap();
    assert_eq!(claims.sub, "-1");
}

#[test]
fn sign_in_names_every_id_by_its_own_numeral() {
    let config = settings();
    for id in [i32::MIN, -2147483647, -17, -1, 0, 1, 17, i32::MAX] {
        let response = sign_in_at(&config, &login("alice", "secret1"), Lookup::Found(alice(id)), 0).unwrap();
        let claims = validate_at(&config, &response.data.token, 0).unwrap();
        assert_eq!(claims.sub, id.to_string());
    }
}

#[test]
fn sign_in_by_the_clock_names_a_negative_id_with_its_sign() {
    let config = settings();
    let response = sign_in(&config, &login("alice", "secret1"), Lookup::Found(alice(-1))).unwrap();
    let claims = bearer_auth::token::validate(&config, &response.data.token).unwrap();
    assert_eq!(claims.sub, "-1");
}
