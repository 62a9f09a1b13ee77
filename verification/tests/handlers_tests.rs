use bearer_auth::error::{DatabaseFailure, MyError};
use bearer_auth::greetings::{hello, hey};
use bearer_auth::requests::UsersInfo;
use bearer_auth::response::SuccessResponse;
use bearer_auth::users::{create, detail, show, Created, Users};

fn user(id: i32, name: &str) -> Users {
    Users {
        id,
        name: name.to_string(),
        email: format!("{}@example.com", name),
        username: name.to_string(),
        password: "hash".to_string(),
    }
}

fn failure() -> DatabaseFailure {
    DatabaseFailure { report: None, text: "connection reset".to_string() }
}

#[test]
fn hey_greets_by_name() {
    assert_eq!(hey("bob"), "Hey bob!");
    assert_eq!(hey(""), "Hey !");
    assert_eq!(hey("Zo\u{e9}"), "Hey Zo\u{e9}!");
}

#[test]
fn hello_greets_by_name() {
    assert_eq!(hello(Some("bob")), Ok("Hello bob!".to_string()));
    assert_eq!(hello(Some("")), Ok("Hello !".to_string()));
}

#[test]
fn hello_without_a_name_is_not_found() {
    assert_eq!(hello(None), Err(MyError::NotFound));
}

#[test]
fn show_lists_the_users() {
    let list = vec![user(1, "alice"), user(2, "bob")];
    assert_eq!(
        show(Ok(list.clone())),
        Ok(SuccessResponse { code: 200, message: String::new(), data: list })
    );
    assert_eq!(show(Ok(Vec::new())).unwrap().data, Vec::new());
}

#[test]
fn show_hides_the_failure_of_the_store() {
    assert_eq!(show(Err(failure())), Err(MyError::InternalError));
}

#[test]
fn detail_shows_the_user() {
    assert_eq!(
        detail(Ok(Some(user(7, "alice")))),
        Ok(SuccessResponse { code: 200, message: String::new(), data: user(7, "alice") })
    );
}

#[test]
fn detail_of_no_user_is_not_found() {
    assert_eq!(detail(Ok(None)), Err(MyError::NotFound));
}

#[test]
fn detail_hides_the_failure_of_the_store() {
    assert_eq!(detail(Err(failure())), Err(MyError::InternalError));
}

#[test]
fn create_reports_the_new_id() {
    let info = UsersInfo { name: "Alice".to_string(), email: "alice@example.com".to_string() };
    assert_eq!(
        create(&info, Ok(12)),
        Ok(SuccessResponse { code: 200, message: "created".to_string(), data: Created { id: 12 } })
    );
}

#[test]
fn create_passes_the_failure_of_the_store_on() {
    let info = UsersInfo { name: "Alice".to_string(), email: "alice@example.com".to_string() };
    assert_eq!(create(&info, Err(failure())), Err(MyError::DatabaseError(failure())));
}

#[test]
fn create_refuses_a_request_that_breaks_its_rules() {
    let info = UsersInfo { name: String::new(), email: "nobody".to_string() };
    let expected = info.validate().unwrap_err();
    assert_eq!(expected.errors.len(), 2);
    assert_eq!(create(&info, Ok(12)), Err(MyError::ValidationError(expected.clone())));
    assert_eq!(create(&info, Err(failure())), Err(MyError::ValidationError(expected)));
}
