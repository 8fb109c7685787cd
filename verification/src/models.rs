use vstd::prelude::*;

verus! {

/// Why a request was turned away before the operation itself ran. Neither
/// variant carries anything: `Unauthorized` names no action, for any operation.
#[derive(Debug, Clone, Copy, PartialEq, Eq, Structural)]
pub enum AuthError {
    /// The request carried no authentication details.
    Unauthenticated,
    /// The credentials given are not allowed to do what was asked.
    Unauthorized,
}

/// A user of the directory.
#[derive(Debug, Clone, PartialEq, Eq)]
pub struct User {
    pub username: String,
    pub name: String,
}

/// A `User` as plain values.
pub struct UserView {
    pub username: Seq<char>,
    pub name: Seq<char>,
}

impl View for User {
    type V = UserView;

    open spec fn view(&self) -> UserView {
        UserView { username: self.username@, name: self.name@ }
    }
}

/// What a client hands in to have a user created.
#[derive(Debug, Clone, PartialEq, Eq)]
pub struct NewUser {
    pub username: String,
    pub name: String,
}

/// A `NewUser` as plain values.
pub struct NewUserView {
    pub username: Seq<char>,
    pub name: Seq<char>,
}

impl View for NewUser {
    type V = NewUserView;

    open spec fn view(&self) -> NewUserView {
        NewUserView { username: self.username@, name: self.name@ }
    }
}

/// What a handler fails with: one of the two errors that the auth check in front of
/// every operation raises, or an error of the operation's own.
#[derive(Debug, Clone, PartialEq, Eq)]
pub enum HandlerError<E> {
    /// The request carried no authentication details.
    Unauthenticated,
    /// The credentials given are not allowed to do what was asked.
    Unauthorized,
    /// The operation itself failed.
    ServiceError(E),
}

impl<E: View> View for HandlerError<E> {
    type V = HandlerError<E::V>;

    open spec fn view(&self) -> HandlerError<E::V> {
        match self {
            HandlerError::Unauthenticated => HandlerError::Unauthenticated,
            HandlerError::Unauthorized => HandlerError::Unauthorized,
            HandlerError::ServiceError(e) => HandlerError::ServiceError(e@),
        }
    }
}

impl<E> HandlerError<E> {
    /// The error of a handler that stands for a refusal of the auth check.
    pub open spec fn refusal(err: AuthError) -> Self {
        match err {
            AuthError::Unauthenticated => HandlerError::Unauthenticated,
            AuthError::Unauthorized => HandlerError::Unauthorized,
        }
    }

    /// Wraps an error of the operation's own.
    pub fn service_error(err: E) -> (r: Self)
        ensures
            r == HandlerError::ServiceError(err),
    {
        HandlerError::ServiceError(err)
    }
}

impl<E> From<AuthError> for HandlerError<E> {
    /// A refusal of the auth check, as the error of a handler.
    fn from(err: AuthError) -> (r: Self) {
        match err {
            AuthError::Unauthenticated => HandlerError::Unauthenticated,
            AuthError::Unauthorized => HandlerError::Unauthorized,
        }
    }
}

impl<E> vstd::std_specs::convert::FromSpecImpl<AuthError> for HandlerError<E> {
    open spec fn obeys_from_spec() -> bool {
        true
    }

    open spec fn from_spec(err: AuthError) -> Self {
        Self::refusal(err)
    }
}

/// How fetching a user fails. The refusals of the auth check are no variant
/// here: they reach the caller through `HandlerError`, for this operation as
/// for every other.
#[derive(Debug, Clone, PartialEq, Eq)]
pub enum GetUserError {
    /// The directory holds no user of that name.
    UserNotFound { username: String },
}

/// A `GetUserError` as plain values.
pub enum GetUserErrorView {
    UserNotFound { username: Seq<char> },
}

impl View for GetUserError {
    type V = GetUserErrorView;

    open spec fn view(&self) -> GetUserErrorView {
        match self {
            GetUserError::UserNotFound { username } => GetUserErrorView::UserNotFound {
                username: username@,
            },
        }
    }
}

/// How creating a user fails, in the operation itself.
#[derive(Debug, Clone, Copy, PartialEq, Eq, Structural)]
pub enum CreateUserError {
    /// The username is in use.
    UsernameAlreadyExists,
    /// The username is not acceptable.
    InvalidUsername(InvalidUsernameReason),
    /// The name is not acceptable.
    InvalidName(InvalidNameReason),
}

impl View for CreateUserError {
    type V = CreateUserError;

    open spec fn view(&self) -> CreateUserError {
        *self
    }
}

/// A field of a new user that was refused, and why, in words.
#[derive(Debug, Clone, PartialEq, Eq)]
pub struct InvalidNewUserReason {
    pub field: String,
    pub reason: String,
}

/// An `InvalidNewUserReason` as plain values.
pub struct InvalidNewUserReasonView {
    pub field: Seq<char>,
    pub reason: Seq<char>,
}

impl View for InvalidNewUserReason {
    type V = InvalidNewUserReasonView;

    open spec fn view(&self) -> InvalidNewUserReasonView {
        InvalidNewUserReasonView { field: self.field@, reason: self.reason@ }
    }
}

/// Why a username is not acceptable.
#[derive(Debug, Clone, Copy, PartialEq, Eq, Structural)]
pub enum InvalidUsernameReason {
    TooShort,
    TooLong,
    InvalidCharacters,
}

/// Why a name is not acceptable.
#[derive(Debug, Clone, Copy, PartialEq, Eq, Structural)]
pub enum InvalidNameReason {
    TooShort,
    TooLong,
    InvalidCharacters,
}

/// A `Result` with both sides as plain values.
pub open spec fn result_view<T: View, E: View>(r: Result<T, E>) -> Result<T::V, E::V> {
    match r {
        Ok(value) => Ok(value@),
        Err(error) => Err(error@),
    }
}

/// An `Option` with its value as plain values.
pub open spec fn option_view<T: View>(o: Option<T>) -> Option<T::V> {
    match o {
        Some(value) => Some(value@),
        None => None,
    }
}

} // verus!
