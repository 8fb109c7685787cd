use url::Url;
use user_service::client::{
    map_send_err, map_to_client_err, Client, ClientError, Method, Reply, Request,
    TransportFailure,
};
use user_service::handlers::{create_user, get_user};
use user_service::models::{
    CreateUserError, GetUserError, InvalidNameReason, InvalidUsernameReason, NewUser, User,
};

fn client(base: &str) -> Client {
    Client::new(Url::parse(base).unwrap())
}

fn failure(connect: bool, timeout: bool, decode: bool) -> TransportFailure {
    TransportFailure { connect, timeout, decode }
}

fn complete(status: u16, body: &str) -> Reply {
    Reply::Complete { status, body: body.as_bytes().to_vec() }
}

fn bob() -> User {
    User { username: "bob".to_string(), name: "Bob".to_string() }
}

#[test]
fn transport_failures_are_asked_in_order() {
    let cases = [
        (failure(false, false, false), ClientError::UnknownError),
        (failure(false, false, true), ClientError::DeserializationError),
        (failure(false, true, false), ClientError::TimeoutError),
        (failure(false, true, true), ClientError::TimeoutError),
        (failure(true, false, false), ClientError::ConnectionError),
        (failure(true, false, true), ClientError::ConnectionError),
        (failure(true, true, false), ClientError::ConnectionError),
        (failure(true, true, true), ClientError::ConnectionError),
    ];
    for (input, expected) in cases {
        assert_eq!(map_to_client_err::<GetUserError>(input), expected);
    }
}

#[test]
fn send_failures_do_not_ask_for_decoding() {
    let cases = [
        (failure(false, false, false), ClientError::UnknownError),
        (failure(false, false, true), ClientError::UnknownError),
        (failure(false, true, false), ClientError::TimeoutError),
        (failure(false, true, true), ClientError::TimeoutError),
        (failure(true, false, false), ClientError::ConnectionError),
        (failure(true, false, true), ClientError::ConnectionError),
        (failure(true, true, false), ClientError::ConnectionError),
        (failure(true, true, true), ClientError::ConnectionError),
    ];
    for (input, expected) in cases {
        assert_eq!(map_send_err::<GetUserError>(input), expected);
    }
}

#[test]
fn no_response_with_decoding_alone_is_unknown() {
    let decode_only = Reply::NoResponse(failure(false, false, true));
    assert_eq!(Client::get_user(&decode_only), Err(ClientError::UnknownError));
    assert_eq!(Client::create_user(&decode_only), Err(ClientError::UnknownError));
    assert_eq!(
        Client::outcome::<User, GetUserError>(&decode_only),
        Err(ClientError::UnknownError)
    );
}

#[test]
fn no_response_never_asks_for_decoding() {
    for connect in [false, true] {
        for timeout in [false, true] {
            let expected = if connect {
                ClientError::ConnectionError
            } else if timeout {
                ClientError::TimeoutError
            } else {
                ClientError::UnknownError
            };
            for decode in [false, true] {
                let reply = Reply::NoResponse(failure(connect, timeout, decode));
                assert_eq!(Client::get_user(&reply), Err(expected.clone()));
            }
        }
    }
}

#[test]
fn request_for_a_user() {
    let request = client("http://127.0.0.1:3000").get_user_request("bob").unwrap();
    assert_eq!(request.method, Method::Get);
    assert_eq!(request.url.as_str(), "http://127.0.0.1:3000/users/bob");
    assert_eq!(request.query, None);
    assert_eq!(request.body, None);
    assert_eq!(request.content_type(), None);
}

#[test]
fn request_is_resolved_against_the_base() {
    let with_slash = client("http://example.net/api/");
    assert_eq!(
        with_slash.get_user_request("bob").unwrap().url.as_str(),
        "http://example.net/api/users/bob"
    );
    let without_slash = client("http://example.net/api");
    assert_eq!(
        without_slash.get_user_request("bob").unwrap().url.as_str(),
        "http://example.net/users/bob"
    );
    assert_eq!(
        with_slash.get_user_request("a b").unwrap().url.as_str(),
        "http://example.net/api/users/a%20b"
    );
    assert_eq!(
        with_slash.get_user_request("../x").unwrap().url.as_str(),
        "http://example.net/api/x"
    );
}

#[test]
fn request_to_create_a_user() {
    let new_user = NewUser { username: "taken".to_string(), name: "Bob".to_string() };
    let request = client("http://127.0.0.1:3000").create_user_request(&new_user).unwrap();
    assert_eq!(request.method, Method::Post);
    assert_eq!(request.url.as_str(), "http://127.0.0.1:3000/users");
    assert_eq!(request.query, None);
    assert_eq!(request.body, Some(b"{\"username\":\"taken\",\"name\":\"Bob\"}".to_vec()));
    assert_eq!(request.content_type(), Some("application/json"));
}

#[test]
fn request_body_is_what_serde_json_reads() {
    let new_user = NewUser { username: "a\"b".to_string(), name: "tab\there".to_string() };
    let request = client("http://127.0.0.1:3000").create_user_request(&new_user).unwrap();
    let document: serde_json::Value = serde_json::from_slice(&request.body.unwrap()).unwrap();
    assert_eq!(document.get("username").and_then(|v| v.as_str()), Some("a\"b"));
    assert_eq!(document.get("name").and_then(|v| v.as_str()), Some("tab\there"));
}

#[test]
fn request_carries_what_it_was_given() {
    let request = client("http://example.net/")
        .request(Method::Post, "x/y", Some("q=1".to_string()), Some(vec![1, 2, 3]))
        .unwrap();
    assert_eq!(
        request,
        Request {
            method: Method::Post,
            url: Url::parse("http://example.net/x/y").unwrap(),
            query: Some("q=1".to_string()),
            body: Some(vec![1, 2, 3]),
        }
    );
}

#[test]
fn no_request_where_the_path_does_not_resolve() {
    let mail = client("mailto:someone@example.net");
    assert_eq!(mail.get_user_request("bob"), None);
    assert_eq!(mail.request(Method::Get, "users", None, None), None);
    let new_user = NewUser { username: "bob".to_string(), name: "Bob".to_string() };
    assert_eq!(mail.create_user_request(&new_user), None);
    assert_eq!(client("http://example.net/").request(Method::Get, "//[", None, None), None);
}

#[test]
fn no_response_is_the_transports_error() {
    assert_eq!(
        Client::get_user(&Reply::NoResponse(failure(true, false, false))),
        Err(ClientError::ConnectionError)
    );
    assert_eq!(
        Client::get_user(&Reply::NoResponse(failure(false, true, false))),
        Err(ClientError::TimeoutError)
    );
    assert_eq!(
        Client::create_user(&Reply::NoResponse(failure(false, false, false))),
        Err(ClientError::UnknownError)
    );
}

#[test]
fn truncated_success_is_the_transports_error() {
    assert_eq!(
        Client::get_user(&Reply::Truncated { status: 200, failure: failure(false, false, true) }),
        Err(ClientError::DeserializationError)
    );
    assert_eq!(
        Client::get_user(&Reply::Truncated { status: 200, failure: failure(false, true, true) }),
        Err(ClientError::TimeoutError)
    );
    assert_eq!(
        Client::get_user(&Reply::Truncated { status: 204, failure: failure(false, false, false) }),
        Err(ClientError::UnknownError)
    );
}

#[test]
fn truncated_error_is_unknown_unless_auth_refused() {
    let timed_out = failure(false, true, false);
    assert_eq!(
        Client::get_user(&Reply::Truncated { status: 404, failure: timed_out }),
        Err(ClientError::UnknownError)
    );
    assert_eq!(
        Client::get_user(&Reply::Truncated { status: 500, failure: timed_out }),
        Err(ClientError::UnknownError)
    );
    assert_eq!(
        Client::get_user(&Reply::Truncated { status: 401, failure: timed_out }),
        Err(ClientError::Unauthenticated)
    );
    assert_eq!(
        Client::create_user(&Reply::Truncated { status: 403, failure: timed_out }),
        Err(ClientError::Unauthorized)
    );
}

#[test]
fn status_401_is_unauthenticated_whatever_the_body() {
    for body in ["", "not json at all", "{\"error\":\"Unauthenticated\"}", "{\"error\":\"UserNotFound\",\"details\":{\"username\":\"bob\"}}", "{\"username\":\"bob\",\"name\":\"Bob\"}"] {
        assert_eq!(Client::get_user(&complete(401, body)), Err(ClientError::Unauthenticated));
        assert_eq!(Client::create_user(&complete(401, body)), Err(ClientError::Unauthenticated));
    }
    assert_eq!(
        Client::get_user(&Reply::Complete { status: 401, body: vec![0xff, 0x00, 0xfe] }),
        Err(ClientError::Unauthenticated)
    );
}

#[test]
fn status_403_is_unauthorized_whatever_the_body() {
    for body in ["", "not json at all", "{\"error\":\"Unauthorized\"}", "{\"error\":\"UsernameAlreadyExists\"}"] {
        assert_eq!(Client::get_user(&complete(403, body)), Err(ClientError::Unauthorized));
        assert_eq!(Client::create_user(&complete(403, body)), Err(ClientError::Unauthorized));
    }
}

#[test]
fn status_404_with_an_envelope_is_the_service_error() {
    for username in ["not_found", "bob", "", "a\"b"] {
        let error = GetUserError::UserNotFound { username: username.to_string() };
        let body = error.clone().into_response().body;
        assert_eq!(
            Client::get_user(&Reply::Complete { status: 404, body }),
            Err(ClientError::ServiceError(error))
        );
    }
    assert_eq!(
        Client::get_user(&complete(
            404,
            "{\"error\":\"UserNotFound\",\"details\":{\"username\":\"not_found\"}}"
        )),
        Err(ClientError::ServiceError(GetUserError::UserNotFound {
            username: "not_found".to_string()
        }))
    );
}

#[test]
fn status_500_without_an_envelope_is_unknown() {
    for body in ["", "Internal Server Error", "<html></html>", "{}", "{\"error\":\"Boom\"}", "{\"username\":\"bob\",\"name\":\"Bob\"}"] {
        assert_eq!(Client::get_user(&complete(500, body)), Err(ClientError::UnknownError));
        assert_eq!(Client::create_user(&complete(500, body)), Err(ClientError::UnknownError));
    }
}

#[test]
fn envelope_of_another_operation_is_unknown() {
    assert_eq!(
        Client::get_user(&complete(400, "{\"error\":\"UsernameAlreadyExists\"}")),
        Err(ClientError::UnknownError)
    );
    assert_eq!(
        Client::create_user(&complete(
            404,
            "{\"error\":\"UserNotFound\",\"details\":{\"username\":\"bob\"}}"
        )),
        Err(ClientError::UnknownError)
    );
}

#[test]
fn envelope_decides_under_any_other_status() {
    for status in [0u16, 100, 199, 300, 302, 400, 402, 404, 418, 500, 503, 999, u16::MAX] {
        assert_eq!(
            Client::create_user(&complete(status, "{\"error\":\"UsernameAlreadyExists\"}")),
            Err(ClientError::ServiceError(CreateUserError::UsernameAlreadyExists))
        );
    }
}

#[test]
fn success_gives_the_user() {
    assert_eq!(
        Client::get_user(&complete(200, "{\"username\":\"bob\",\"name\":\"Bob\"}")),
        Ok(bob())
    );
    assert_eq!(
        Client::create_user(&complete(201, "{\"name\":\"Bob\",\"username\":\"bob\"}")),
        Ok(bob())
    );
    assert_eq!(
        Client::outcome::<User, GetUserError>(&complete(
            299,
            " {\"username\": \"bob\", \"name\": \"Bob\"} "
        )),
        Ok(bob())
    );
}

#[test]
fn success_with_an_unreadable_body_is_a_deserialization_error() {
    for body in ["", "not json", "{}", "{\"error\":\"UsernameAlreadyExists\"}", "{\"username\":\"bob\"}"] {
        assert_eq!(Client::get_user(&complete(200, body)), Err(ClientError::DeserializationError));
        assert_eq!(
            Client::create_user(&complete(200, body)),
            Err(ClientError::DeserializationError)
        );
    }
}

#[test]
fn taken_username_reaches_the_caller() {
    let new_user = NewUser { username: "taken".to_string(), name: "Bob".to_string() };
    let response = create_user(new_user).expect_err("taken").into_response();
    assert_eq!(response.status, 400);
    assert_eq!(response.body, b"{\"error\":\"UsernameAlreadyExists\"}".to_vec());
    let reply = Reply::Complete { status: response.status, body: response.body };
    assert_eq!(
        Client::create_user(&reply),
        Err(ClientError::ServiceError(CreateUserError::UsernameAlreadyExists))
    );
}

#[test]
fn every_handler_outcome_reaches_the_caller() {
    let cases = [
        ("", "Bob", Err(CreateUserError::InvalidUsername(InvalidUsernameReason::TooShort))),
        (
            "abcdefghijklmnopqrstu",
            "Bob",
            Err(CreateUserError::InvalidUsername(InvalidUsernameReason::TooLong)),
        ),
        (
            "invalid",
            "Bob",
            Err(CreateUserError::InvalidUsername(InvalidUsernameReason::InvalidCharacters)),
        ),
        ("taken", "Bob", Err(CreateUserError::UsernameAlreadyExists)),
        ("bob", "", Err(CreateUserError::InvalidName(InvalidNameReason::TooShort))),
        (
            "bob",
            "abcdefghijklmnopqrstu",
            Err(CreateUserError::InvalidName(InvalidNameReason::TooLong)),
        ),
        ("bob", "invalid", Err(CreateUserError::InvalidName(InvalidNameReason::InvalidCharacters))),
        ("bob", "Bob", Ok(bob())),
    ];
    for (username, name, expected) in cases {
        let new_user = NewUser { username: username.to_string(), name: name.to_string() };
        let response = match create_user(new_user) {
            Ok(user) => user.into_response(),
            Err(error) => error.into_response(),
        };
        let reply = Reply::Complete { status: response.status, body: response.body };
        assert_eq!(Client::create_user(&reply), expected.map_err(ClientError::ServiceError));
    }
}

#[test]
fn every_get_user_outcome_reaches_the_caller() {
    let cases = [
        ("unauthenticated", Err(ClientError::Unauthenticated)),
        ("unauthorized", Err(ClientError::Unauthorized)),
        (
            "not_found",
            Err(ClientError::ServiceError(GetUserError::UserNotFound {
                username: "not_found".to_string(),
            })),
        ),
        ("bob", Ok(User { username: "bob".to_string(), name: "John Doe".to_string() })),
    ];
    for (username, expected) in cases {
        let response = match get_user(username.to_string()) {
            Ok(user) => user.into_response(),
            Err(error) => error.into_response(),
        };
        let reply = Reply::Complete { status: response.status, body: response.body };
        assert_eq!(Client::get_user(&reply), expected);
    }
}
