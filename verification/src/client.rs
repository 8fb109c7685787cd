use crate::json::json_document;
use crate::models::{
    result_view, CreateUserError, GetUserError, HandlerError, NewUser, User,
};
use crate::response::{is_success, is_success_spec, FORBIDDEN, UNAUTHORIZED};
use crate::wire::{
    decode_error, decode_payload, document_holds, envelope_of_body, error_of_body,
    lemma_written_envelope_reads_back, payload_of_body, user_text, Payload, ServiceError,
};
use vstd::prelude::*;
use vstd::string::{StrSliceExecFns, StringExecFns};

verus! {

/// `url::Url`, a parsed URL. Nothing inside it is visible here.
#[verifier::external_type_specification]
#[verifier::external_body]
pub struct ExUrl(url::Url);

/// `url::ParseError`, what the url crate reports for a text that is no URL.
#[verifier::external_type_specification]
#[verifier::external_body]
pub struct ExParseError(url::ParseError);

/// The URL that a reference resolves to against a base, where it resolves.
pub uninterp spec fn url_joined(base: url::Url, reference: Seq<char>) -> Option<url::Url>;

/// Calls `url::Url::join`. Not proved: that the outcome depends on the base
/// and the reference alone, which is what gives `url_joined` its meaning.
#[verifier::external_body]
fn join(base: &url::Url, reference: &str) -> (r: Result<url::Url, url::ParseError>)
    ensures
        match r {
            Ok(url) => url_joined(*base, reference@) == Some(url),
            Err(_) => url_joined(*base, reference@) is None,
        },
{
    base.join(reference)
}

/// How a call ends when it gives no value.
#[derive(Debug, Clone, PartialEq, Eq)]
pub enum ClientError<E> {
    /// No connection to the server could be made.
    ConnectionError,
    /// The call took too long.
    TimeoutError,
    /// The call failed and nothing tells why.
    UnknownError,
    /// The server reported success, and its body could not be read.
    DeserializationError,
    /// The request carried no authentication details.
    Unauthenticated,
    /// The credentials given are not allowed to do what was asked.
    Unauthorized,
    /// The operation itself failed, with this error.
    ServiceError(E),
}

impl<E: View> View for ClientError<E> {
    type V = ClientError<E::V>;

    open spec fn view(&self) -> ClientError<E::V> {
        match self {
            ClientError::ConnectionError => ClientError::ConnectionError,
            ClientError::TimeoutError => ClientError::TimeoutError,
            ClientError::UnknownError => ClientError::UnknownError,
            ClientError::DeserializationError => ClientError::DeserializationError,
            ClientError::Unauthenticated => ClientError::Unauthenticated,
            ClientError::Unauthorized => ClientError::Unauthorized,
            ClientError::ServiceError(e) => ClientError::ServiceError(e@),
        }
    }
}

/// What the transport says of an exchange that broke off. The three can hold
/// together; they are asked in this order. Decoding is asked only of an
/// exchange that broke off within a body.
#[derive(Debug, Clone, Copy, PartialEq, Eq, Structural)]
pub struct TransportFailure {
    /// The connection could not be made.
    pub connect: bool,
    /// A deadline passed.
    pub timeout: bool,
    /// What was received could not be decoded.
    pub decode: bool,
}

/// The error that an exchange is reported as which broke off before any
/// status was received: the first of connection and timeout that the
/// transport names, and an unknown error where it names neither. Nothing
/// was received, so what the transport says of decoding does not count.
pub open spec fn send_failure_error<E>(failure: TransportFailure) -> ClientError<E> {
    if failure.connect {
        ClientError::ConnectionError
    } else if failure.timeout {
        ClientError::TimeoutError
    } else {
        ClientError::UnknownError
    }
}

/// Reports an exchange that broke off before any status was received.
pub fn map_send_err<E>(err: TransportFailure) -> (r: ClientError<E>)
    ensures
        r == send_failure_error::<E>(err),
{
    if err.connect {
        ClientError::ConnectionError
    } else if err.timeout {
        ClientError::TimeoutError
    } else {
        ClientError::UnknownError
    }
}

/// The error that an exchange is reported as which broke off within the body
/// of a success: the first of connection, timeout and decoding that the
/// transport names, and an unknown error where it names none.
pub open spec fn failure_error<E>(failure: TransportFailure) -> ClientError<E> {
    if failure.connect {
        ClientError::ConnectionError
    } else if failure.timeout {
        ClientError::TimeoutError
    } else if failure.decode {
        ClientError::DeserializationError
    } else {
        ClientError::UnknownError
    }
}

/// Reports an exchange that broke off within the body of a success.
pub fn map_to_client_err<E>(err: TransportFailure) -> (r: ClientError<E>)
    ensures
        r == failure_error::<E>(err),
{
    if err.connect {
        ClientError::ConnectionError
    } else if err.timeout {
        ClientError::TimeoutError
    } else if err.decode {
        ClientError::DeserializationError
    } else {
        ClientError::UnknownError
    }
}

/// The method of a request.
#[derive(Debug, Clone, Copy, PartialEq, Eq, Structural)]
pub enum Method {
    Get,
    Post,
}

/// A request, ready to be sent.
#[derive(Debug, PartialEq, Eq)]
pub struct Request {
    pub method: Method,
    pub url: url::Url,
    pub query: Option<String>,
    /// The body. Where there is one it is JSON and is sent as such.
    pub body: Option<Vec<u8>>,
}

impl Request {
    /// The content type to send: that of JSON with a body, none without.
    pub fn content_type(&self) -> (r: Option<&'static str>)
        ensures
            r is Some == self.body is Some,
            r matches Some(name) ==> name@ == "application/json"@,
    {
        match &self.body {
            Some(_) => Some("application/json"),
            None => None,
        }
    }
}

/// What came of sending a request.
#[derive(Debug, Clone, PartialEq, Eq)]
pub enum Reply {
    /// The exchange broke off before any status was received.
    NoResponse(TransportFailure),
    /// A status was received, and the exchange broke off within the body.
    Truncated { status: u16, failure: TransportFailure },
    /// A status and the whole body were received.
    Complete { status: u16, body: Vec<u8> },
}

/// What a reply means to the caller. An exchange that broke off before any
/// status is a connection error, a timeout, or an unknown error. A status of
/// success gives the value in the body, a deserialization error where the
/// body holds none, and the transport's error where the body did not arrive.
/// Of the other statuses two stand for the refusals of the auth check,
/// whatever the body; any other gives the operation's error in the body, and
/// an unknown error where the body holds none or did not arrive.
pub open spec fn outcome_spec<T: Payload, E: ServiceError>(reply: Reply) -> Result<
    T::V,
    ClientError<E::V>,
> {
    match reply {
        Reply::NoResponse(failure) => Err(send_failure_error(failure)),
        Reply::Truncated { status, failure } => if is_success_spec(status) {
            Err(failure_error(failure))
        } else if status == UNAUTHORIZED {
            Err(ClientError::Unauthenticated)
        } else if status == FORBIDDEN {
            Err(ClientError::Unauthorized)
        } else {
            Err(ClientError::UnknownError)
        },
        Reply::Complete { status, body } => if is_success_spec(status) {
            match payload_of_body::<T>(body@) {
                Some(value) => Ok(value),
                None => Err(ClientError::DeserializationError),
            }
        } else if status == UNAUTHORIZED {
            Err(ClientError::Unauthenticated)
        } else if status == FORBIDDEN {
            Err(ClientError::Unauthorized)
        } else {
            match error_of_body::<E>(body@) {
                Some(error) => Err(ClientError::ServiceError(error)),
                None => Err(ClientError::UnknownError),
            }
        },
    }
}

/// The client of the user directory. It does no I/O: it says what to send,
/// and what a reply means.
#[derive(Debug)]
pub struct Client {
    base_url: url::Url,
}

impl Client {
    /// The URL that the client's requests are resolved against.
    pub closed spec fn base(&self) -> url::Url {
        self.base_url
    }

    /// A client of the server at a URL.
    pub fn new(base_url: url::Url) -> (client: Self)
        ensures
            client.base() == base_url,
    {
        Self { base_url }
    }

    /// The request for a path: the path resolved against the base URL, with
    /// method, query and body as given. `None` where the path does not
    /// resolve.
    pub fn request(
        &self,
        method: Method,
        path: &str,
        query: Option<String>,
        payload: Option<Vec<u8>>,
    ) -> (r: Option<Request>)
        ensures
            match url_joined(self.base(), path@) {
                None => r is None,
                Some(url) => r == Some((Request { method, url, query, body: payload })),
            },
    {
        match join(&self.base_url, path) {
            Err(_) => None,
            Ok(url) => Some(Request { method, url, query, body: payload }),
        }
    }

    /// What a reply means, for an operation that gives a `T` and fails with
    /// an `E`.
    pub fn outcome<T: Payload, E: ServiceError>(reply: &Reply) -> (r: Result<T, ClientError<E>>)
        ensures
            result_view(r) == outcome_spec::<T, E>(*reply),
    {
        match reply {
            Reply::NoResponse(failure) => Err(map_send_err(*failure)),
            Reply::Truncated { status, failure } => {
                if is_success(*status) {
                    Err(map_to_client_err(*failure))
                } else if *status == UNAUTHORIZED {
                    Err(ClientError::Unauthenticated)
                } else if *status == FORBIDDEN {
                    Err(ClientError::Unauthorized)
                } else {
                    Err(ClientError::UnknownError)
                }
            },
            Reply::Complete { status, body } => {
                if is_success(*status) {
                    match decode_payload::<T>(body.as_slice()) {
                        Some(value) => Ok(value),
                        None => Err(ClientError::DeserializationError),
                    }
                } else if *status == UNAUTHORIZED {
                    Err(ClientError::Unauthenticated)
                } else if *status == FORBIDDEN {
                    Err(ClientError::Unauthorized)
                } else {
                    match decode_error::<E>(body.as_slice()) {
                        Some(error) => Err(ClientError::ServiceError(error)),
                        None => Err(ClientError::UnknownError),
                    }
                }
            },
        }
    }

    /// The request that fetches a user: `GET` of `users/` and the username,
    /// resolved against the base URL.
    pub fn get_user_request(&self, username: &str) -> (r: Option<Request>)
        ensures
            match url_joined(self.base(), "users/"@ + username@) {
                None => r is None,
                Some(url) => r == Some(
                    (Request { method: Method::Get, url, query: None, body: None }),
                ),
            },
    {
        let path = "users/".to_owned().concat(username);
        self.request(Method::Get, path.as_str(), None, None)
    }

    /// What the reply to the request for a user means.
    pub fn get_user(reply: &Reply) -> (r: Result<User, ClientError<GetUserError>>)
        ensures
            result_view(r) == outcome_spec::<User, GetUserError>(*reply),
    {
        Client::outcome(reply)
    }

    /// The request that creates a user: `POST` of `users`, resolved against
    /// the base URL, with the new user as the body.
    pub fn create_user_request(&self, new_user: &NewUser) -> (r: Option<Request>)
        ensures
            match url_joined(self.base(), "users"@) {
                None => r is None,
                Some(url) => match r {
                    Some(request) => request.method == Method::Post && request.url == url
                        && request.query is None && match request.body {
                        Some(body) => body@ == vstd::utf8::encode_utf8(
                            user_text(new_user.username@, new_user.name@),
                        ),
                        None => false,
                    },
                    None => false,
                },
            },
    {
        let payload = new_user.to_json().as_str().as_bytes_vec();
        self.request(Method::Post, "users", None, Some(payload))
    }

    /// What the reply to the request to create a user means.
    pub fn create_user(reply: &Reply) -> (r: Result<User, ClientError<CreateUserError>>)
        ensures
            result_view(r) == outcome_spec::<User, CreateUserError>(*reply),
    {
        Client::outcome(reply)
    }
}

/// A status that stands for a refusal of the auth check is reported as that
/// refusal, whatever the body holds and whether or not it arrived.
pub proof fn lemma_refusals_ignore_the_body<T: Payload, E: ServiceError>(
    body: Vec<u8>,
    failure: TransportFailure,
)
    ensures
        outcome_spec::<T, E>(Reply::Complete { status: UNAUTHORIZED, body }) == Err::<
            T::V,
            ClientError<E::V>,
        >(ClientError::Unauthenticated),
        outcome_spec::<T, E>(Reply::Complete { status: FORBIDDEN, body }) == Err::<
            T::V,
            ClientError<E::V>,
        >(ClientError::Unauthorized),
        outcome_spec::<T, E>(Reply::Truncated { status: UNAUTHORIZED, failure }) == Err::<
            T::V,
            ClientError<E::V>,
        >(ClientError::Unauthenticated),
        outcome_spec::<T, E>(Reply::Truncated { status: FORBIDDEN, failure }) == Err::<
            T::V,
            ClientError<E::V>,
        >(ClientError::Unauthorized),
{
}

/// An error of the operation reaches the caller as it was raised: where the
/// body holds the error's envelope and the status is the error's own, the
/// caller gets that error.
pub proof fn lemma_service_error_survives<T: Payload, E: ServiceError>(
    error: E::V,
    body: Vec<u8>,
)
    requires
        envelope_of_body(body@) == Some(E::envelope_spec(error)),
    ensures
        outcome_spec::<T, E>(Reply::Complete { status: E::status_spec(error), body }) == Err::<
            T::V,
            ClientError<E::V>,
        >(ClientError::ServiceError(error)),
{
    E::lemma_round_trip(error);
    E::lemma_status_is_its_own(error);
}

/// The same under any status that is neither success nor a refusal of the
/// auth check: where the body holds the envelope of an error, the caller gets that
/// error.
pub proof fn lemma_envelope_decides<T: Payload, E: ServiceError>(
    error: E::V,
    status: u16,
    body: Vec<u8>,
)
    requires
        !is_success_spec(status),
        status != UNAUTHORIZED,
        status != FORBIDDEN,
        envelope_of_body(body@) == Some(E::envelope_spec(error)),
    ensures
        outcome_spec::<T, E>(Reply::Complete { status, body }) == Err::<T::V, ClientError<E::V>>(
            ClientError::ServiceError(error),
        ),
{
    E::lemma_round_trip(error);
}

/// Under a status that is neither success nor a refusal of the auth check, a body
/// that holds no envelope gives an unknown error.
pub proof fn lemma_unreadable_error_is_unknown<T: Payload, E: ServiceError>(
    status: u16,
    body: Vec<u8>,
)
    requires
        !is_success_spec(status),
        status != UNAUTHORIZED,
        status != FORBIDDEN,
        envelope_of_body(body@) is None,
    ensures
        outcome_spec::<T, E>(Reply::Complete { status, body }) == Err::<T::V, ClientError<E::V>>(
            ClientError::UnknownError,
        ),
{
}

/// A call gives a value only under a status of success with a whole body,
/// and a deserialization error only under a status of success.
pub proof fn lemma_value_only_on_success<T: Payload, E: ServiceError>(reply: Reply)
    ensures
        outcome_spec::<T, E>(reply) is Ok ==> (reply matches Reply::Complete { status, .. }
            && is_success_spec(status)),
        outcome_spec::<T, E>(reply) == Err::<T::V, ClientError<E::V>>(
            ClientError::DeserializationError,
        ) ==> ((reply matches Reply::Complete { status, .. } && is_success_spec(status)) || (
        reply matches Reply::Truncated { status, .. } && is_success_spec(status))),
{
}

/// An exchange that broke off before any status is a connection error where
/// the transport names the connection, else a timeout where it names one,
/// else an unknown error, whatever it says of decoding. It is never a value,
/// nor any other error.
pub proof fn lemma_send_failure_cases<T: Payload, E: ServiceError>(failure: TransportFailure)
    ensures
        failure.connect ==> outcome_spec::<T, E>(Reply::NoResponse(failure)) == Err::<
            T::V,
            ClientError<E::V>,
        >(ClientError::ConnectionError),
        !failure.connect && failure.timeout ==> outcome_spec::<T, E>(
            Reply::NoResponse(failure),
        ) == Err::<T::V, ClientError<E::V>>(ClientError::TimeoutError),
        !failure.connect && !failure.timeout ==> outcome_spec::<T, E>(
            Reply::NoResponse(failure),
        ) == Err::<T::V, ClientError<E::V>>(ClientError::UnknownError),
{
}

/// The error that the caller is to get for an error that a handler raised:
/// the same one.
pub open spec fn client_error<V>(error: HandlerError<V>) -> ClientError<V> {
    match error {
        HandlerError::Unauthenticated => ClientError::Unauthenticated,
        HandlerError::Unauthorized => ClientError::Unauthorized,
        HandlerError::ServiceError(inner) => ClientError::ServiceError(inner),
    }
}

/// What a handler raises is what the caller gets. The server answers an
/// error with the error's status and a body; where that body is JSON with
/// the shape in which the error's envelope is written, the client reports
/// the error that the handler raised.
pub proof fn lemma_handler_error_reaches_the_caller<T: Payload, E: ServiceError>(
    error: HandlerError<E::V>,
    body: Vec<u8>,
)
    requires
        json_document(body@) matches Some(document) && document_holds(
            document,
            HandlerError::<E>::envelope_spec(error),
        ),
    ensures
        outcome_spec::<T, E>(
            Reply::Complete { status: HandlerError::<E>::status_spec(error), body },
        ) == Err::<T::V, ClientError<E::V>>(client_error(error)),
{
    match error {
        HandlerError::ServiceError(inner) => {
            lemma_written_envelope_reads_back(
                json_document(body@)->0,
                E::envelope_spec(inner),
            );
            lemma_service_error_survives::<T, E>(inner, body);
        },
        _ => {},
    }
}

} // verus!
