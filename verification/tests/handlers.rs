use http::StatusCode;
use user_service::handlers::{check_auth, create_user, get_user, MAX_FIELD_BYTES};
use user_service::models::{
    AuthError, CreateUserError, GetUserError, HandlerError, InvalidNameReason,
    InvalidUsernameReason, NewUser, User,
};

fn new_user(username: &str, name: &str) -> NewUser {
    NewUser { username: username.to_string(), name: name.to_string() }
}

fn refused(error: CreateUserError) -> Result<User, HandlerError<CreateUserError>> {
    Err(HandlerError::ServiceError(error))
}

#[test]
fn get_user_error_into_response() {
    let tests = vec![(
        GetUserError::UserNotFound { username: "not_found".to_string() },
        StatusCode::NOT_FOUND,
    )];

    for (err, expected_status_code) in tests {
        let response = err.into_response();
        let actual_status_code = response.status();

        assert_eq!(expected_status_code.as_u16(), actual_status_code);
    }
}

#[test]
fn get_user_not_found() {
    let path = "not_found".to_string();
    let err = get_user(path).expect_err("expected an error");

    match err {
        HandlerError::ServiceError(GetUserError::UserNotFound { username })
            if username == "not_found" => {}
        _ => panic!("expected UserNotFound error"),
    }
}

#[test]
fn check_auth_refuses_the_two_sentinels() {
    assert_eq!(check_auth("unauthenticated"), Err(AuthError::Unauthenticated));
    assert_eq!(check_auth("unauthorized"), Err(AuthError::Unauthorized));
}

#[test]
fn check_auth_lets_everyone_else_through() {
    assert_eq!(check_auth("bob"), Ok(()));
    assert_eq!(check_auth(""), Ok(()));
    assert_eq!(check_auth("not_found"), Ok(()));
    assert_eq!(check_auth("Unauthenticated"), Ok(()));
    assert_eq!(check_auth("unauthorized "), Ok(()));
    assert_eq!(check_auth("unauthenticate"), Ok(()));
}

#[test]
fn get_user_is_refused_by_the_auth_check() {
    assert_eq!(get_user("unauthenticated".to_string()), Err(HandlerError::Unauthenticated));
    assert_eq!(get_user("unauthorized".to_string()), Err(HandlerError::Unauthorized));
}

#[test]
fn get_user_finds_john_doe() {
    assert_eq!(
        get_user("bob".to_string()),
        Ok(User { username: "bob".to_string(), name: "John Doe".to_string() })
    );
    assert_eq!(
        get_user("".to_string()),
        Ok(User { username: "".to_string(), name: "John Doe".to_string() })
    );
    assert_eq!(
        get_user("taken".to_string()),
        Ok(User { username: "taken".to_string(), name: "John Doe".to_string() })
    );
    assert_eq!(
        get_user("not_found ".to_string()),
        Ok(User { username: "not_found ".to_string(), name: "John Doe".to_string() })
    );
}

#[test]
fn create_user_echoes_a_valid_user() {
    assert_eq!(
        create_user(new_user("bob", "Bob")),
        Ok(User { username: "bob".to_string(), name: "Bob".to_string() })
    );
}

#[test]
fn create_user_has_no_auth_check() {
    assert_eq!(
        create_user(new_user("unauthenticated", "Bob")),
        Ok(User { username: "unauthenticated".to_string(), name: "Bob".to_string() })
    );
    assert_eq!(
        create_user(new_user("not_found", "unauthorized")),
        Ok(User { username: "not_found".to_string(), name: "unauthorized".to_string() })
    );
}

#[test]
fn create_user_checks_the_username() {
    assert_eq!(
        create_user(new_user("", "Bob")),
        refused(CreateUserError::InvalidUsername(InvalidUsernameReason::TooShort))
    );
    assert_eq!(
        create_user(new_user("abcdefghijklmnopqrstu", "Bob")),
        refused(CreateUserError::InvalidUsername(InvalidUsernameReason::TooLong))
    );
    assert_eq!(
        create_user(new_user("invalid", "Bob")),
        refused(CreateUserError::InvalidUsername(InvalidUsernameReason::InvalidCharacters))
    );
    assert_eq!(
        create_user(new_user("taken", "Bob")),
        refused(CreateUserError::UsernameAlreadyExists)
    );
}

#[test]
fn create_user_checks_the_name() {
    assert_eq!(
        create_user(new_user("bob", "")),
        refused(CreateUserError::InvalidName(InvalidNameReason::TooShort))
    );
    assert_eq!(
        create_user(new_user("bob", "abcdefghijklmnopqrstu")),
        refused(CreateUserError::InvalidName(InvalidNameReason::TooLong))
    );
    assert_eq!(
        create_user(new_user("bob", "invalid")),
        refused(CreateUserError::InvalidName(InvalidNameReason::InvalidCharacters))
    );
}

#[test]
fn create_user_takes_a_name_that_is_taken() {
    assert_eq!(
        create_user(new_user("bob", "taken")),
        Ok(User { username: "bob".to_string(), name: "taken".to_string() })
    );
}

#[test]
fn create_user_reports_the_username_first() {
    for name in ["", "Bob", "invalid", "abcdefghijklmnopqrstuvwxyz"] {
        assert_eq!(
            create_user(new_user("", name)),
            refused(CreateUserError::InvalidUsername(InvalidUsernameReason::TooShort))
        );
        assert_eq!(
            create_user(new_user("abcdefghijklmnopqrstuvwxyz", name)),
            refused(CreateUserError::InvalidUsername(InvalidUsernameReason::TooLong))
        );
        assert_eq!(
            create_user(new_user("invalid", name)),
            refused(CreateUserError::InvalidUsername(InvalidUsernameReason::InvalidCharacters))
        );
        assert_eq!(
            create_user(new_user("taken", name)),
            refused(CreateUserError::UsernameAlreadyExists)
        );
    }
}

#[test]
fn create_user_length_limit_is_twenty_bytes() {
    assert_eq!(MAX_FIELD_BYTES, 20);
    let twenty = "abcdefghijklmnopqrst";
    let twenty_one = "abcdefghijklmnopqrstu";
    assert_eq!(twenty.len(), 20);
    assert_eq!(
        create_user(new_user(twenty, twenty)),
        Ok(User { username: twenty.to_string(), name: twenty.to_string() })
    );
    assert_eq!(
        create_user(new_user(twenty_one, twenty)),
        refused(CreateUserError::InvalidUsername(InvalidUsernameReason::TooLong))
    );
    assert_eq!(
        create_user(new_user(twenty, twenty_one)),
        refused(CreateUserError::InvalidName(InvalidNameReason::TooLong))
    );
}

#[test]
fn create_user_counts_bytes_not_characters() {
    let ten = "éééééééééé";
    let eleven = "ééééééééééé";
    assert_eq!(ten.chars().count(), 10);
    assert_eq!(ten.len(), 20);
    assert_eq!(eleven.len(), 22);
    assert_eq!(
        create_user(new_user(ten, ten)),
        Ok(User { username: ten.to_string(), name: ten.to_string() })
    );
    assert_eq!(
        create_user(new_user(eleven, "Bob")),
        refused(CreateUserError::InvalidUsername(InvalidUsernameReason::TooLong))
    );
    assert_eq!(
        create_user(new_user("bob", eleven)),
        refused(CreateUserError::InvalidName(InvalidNameReason::TooLong))
    );
}

#[test]
fn handler_error_wraps_and_converts() {
    assert_eq!(
        HandlerError::service_error(CreateUserError::UsernameAlreadyExists),
        HandlerError::ServiceError(CreateUserError::UsernameAlreadyExists)
    );
    assert_eq!(
        HandlerError::<GetUserError>::from(AuthError::Unauthenticated),
        HandlerError::Unauthenticated
    );
    assert_eq!(
        HandlerError::<GetUserError>::from(AuthError::Unauthorized),
        HandlerError::Unauthorized
    );
}
