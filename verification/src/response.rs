use crate::models::{CreateUserError, GetUserError, GetUserErrorView, HandlerError, User};
use crate::wire::{
    envelope_text, user_text, Details, DetailsView, Envelope, EnvelopeView, ServiceError, Tag,
};
use vstd::prelude::*;
use vstd::string::StrSliceExecFns;

verus! {

/// The status of a request that was carried out.
pub const OK: u16 = 200;

/// The status of a request that the operation refused.
pub const BAD_REQUEST: u16 = 400;

/// The status of a request without authentication details.
pub const UNAUTHORIZED: u16 = 401;

/// The status of a request whose credentials do not allow it.
pub const FORBIDDEN: u16 = 403;

/// The status of a request for what is not there.
pub const NOT_FOUND: u16 = 404;

/// Whether a status says that the request was carried out.
pub open spec fn is_success_spec(status: u16) -> bool {
    200 <= status < 300
}

/// Whether a status says that the request was carried out.
pub fn is_success(status: u16) -> (r: bool)
    ensures
        r == is_success_spec(status),
{
    200 <= status && status < 300
}

/// What the server answers: a status, and a body of JSON text.
#[derive(Debug, Clone, PartialEq, Eq)]
pub struct Response {
    pub status: u16,
    pub body: Vec<u8>,
}

impl Response {
    /// The status.
    pub fn status(&self) -> (r: u16)
        ensures
            r == self.status,
    {
        self.status
    }
}

impl<E: ServiceError> HandlerError<E> {
    /// The status that goes with a handler's error: one for each refusal of
    /// the auth check, and otherwise that of the operation's own error.
    pub open spec fn status_spec(error: HandlerError<E::V>) -> u16 {
        match error {
            HandlerError::Unauthenticated => UNAUTHORIZED,
            HandlerError::Unauthorized => FORBIDDEN,
            HandlerError::ServiceError(inner) => E::status_spec(inner),
        }
    }

    /// The envelope that stands for a handler's error: a bare tag for each
    /// refusal of the auth check, and otherwise that of the operation's own error.
    pub open spec fn envelope_spec(error: HandlerError<E::V>) -> EnvelopeView {
        match error {
            HandlerError::Unauthenticated => EnvelopeView {
                tag: Tag::Unauthenticated,
                details: DetailsView::Empty,
            },
            HandlerError::Unauthorized => EnvelopeView {
                tag: Tag::Unauthorized,
                details: DetailsView::Empty,
            },
            HandlerError::ServiceError(inner) => E::envelope_spec(inner),
        }
    }

    /// The status that goes with this error.
    pub fn status(&self) -> (code: u16)
        ensures
            code == Self::status_spec(self@),
    {
        match self {
            HandlerError::Unauthenticated => UNAUTHORIZED,
            HandlerError::Unauthorized => FORBIDDEN,
            HandlerError::ServiceError(inner) => inner.status(),
        }
    }

    /// The envelope that stands for this error.
    pub fn envelope(&self) -> (envelope: Envelope)
        ensures
            envelope@ == Self::envelope_spec(self@),
    {
        match self {
            HandlerError::Unauthenticated => Envelope {
                tag: Tag::Unauthenticated,
                details: Details::Empty,
            },
            HandlerError::Unauthorized => Envelope {
                tag: Tag::Unauthorized,
                details: Details::Empty,
            },
            HandlerError::ServiceError(inner) => inner.envelope(),
        }
    }

    /// The answer to a request that failed: the error's status, and its
    /// envelope as the body.
    pub fn into_response(self) -> (response: Response)
        ensures
            response.status == Self::status_spec(self@),
            response.body@ == vstd::utf8::encode_utf8(envelope_text(Self::envelope_spec(self@))),
    {
        let status = self.status();
        let json = self.envelope().to_json();
        Response { status, body: json.as_str().as_bytes_vec() }
    }
}

/// The answer that carries an error of an operation: the error's status, and
/// its envelope as the body.
pub fn error_response<E: ServiceError>(error: &E) -> (response: Response)
    ensures
        response.status == E::status_spec(error@),
        response.body@ == vstd::utf8::encode_utf8(envelope_text(E::envelope_spec(error@))),
{
    let status = error.status();
    let json = error.envelope().to_json();
    Response { status, body: json.as_str().as_bytes_vec() }
}

impl GetUserError {
    /// The answer to a request that failed with this error.
    pub fn into_response(self) -> (response: Response)
        ensures
            response.status == <GetUserError as ServiceError>::status_spec(self@),
            response.body@ == vstd::utf8::encode_utf8(
                envelope_text(<GetUserError as ServiceError>::envelope_spec(self@)),
            ),
    {
        error_response(&self)
    }
}

impl CreateUserError {
    /// The answer to a request that failed with this error.
    pub fn into_response(self) -> (response: Response)
        ensures
            response.status == BAD_REQUEST,
            response.body@ == vstd::utf8::encode_utf8(
                envelope_text(<CreateUserError as ServiceError>::envelope_spec(self@)),
            ),
    {
        error_response(&self)
    }
}

impl User {
    /// The answer to a request that was carried out: the user as the body.
    pub fn into_response(self) -> (response: Response)
        ensures
            response.status == OK,
            response.body@ == vstd::utf8::encode_utf8(user_text(self.username@, self.name@)),
    {
        let json = self.to_json();
        Response { status: OK, body: json.as_str().as_bytes_vec() }
    }
}

/// No error of a handler is answered with a status of success.
pub proof fn lemma_no_error_is_success<E: ServiceError>(error: HandlerError<E::V>)
    ensures
        !is_success_spec(HandlerError::<E>::status_spec(error)),
        400 <= HandlerError::<E>::status_spec(error) < 500,
{
    match error {
        HandlerError::ServiceError(inner) => {
            E::lemma_status_is_its_own(inner);
        },
        _ => {},
    }
}

/// The tags under which fetching a user fails are the two of the auth check
/// and the one of the operation's only error, each for its own variant.
pub proof fn lemma_tags_of_get_user(error: HandlerError<GetUserErrorView>)
    ensures
        HandlerError::<GetUserError>::envelope_spec(error).tag == Tag::Unauthenticated
            <==> error is Unauthenticated,
        HandlerError::<GetUserError>::envelope_spec(error).tag == Tag::Unauthorized
            <==> error is Unauthorized,
        HandlerError::<GetUserError>::envelope_spec(error).tag == Tag::UserNotFound
            <==> error is ServiceError,
{
}

/// The tags under which creating a user fails are the two of the auth check
/// and one for each variant of the operation's error.
pub proof fn lemma_tags_of_create_user(error: HandlerError<CreateUserError>)
    ensures
        HandlerError::<CreateUserError>::envelope_spec(error).tag == Tag::Unauthenticated
            <==> error is Unauthenticated,
        HandlerError::<CreateUserError>::envelope_spec(error).tag == Tag::Unauthorized
            <==> error is Unauthorized,
        HandlerError::<CreateUserError>::envelope_spec(error).tag == Tag::UsernameAlreadyExists
            <==> error == HandlerError::ServiceError(CreateUserError::UsernameAlreadyExists),
        HandlerError::<CreateUserError>::envelope_spec(error).tag == Tag::InvalidUsername <==> (
        error matches HandlerError::ServiceError(inner) && inner is InvalidUsername),
        HandlerError::<CreateUserError>::envelope_spec(error).tag == Tag::InvalidName <==> (
        error matches HandlerError::ServiceError(inner) && inner is InvalidName),
{
}

} // verus!
