use crate::models::{
    result_view, AuthError, CreateUserError, GetUserError, GetUserErrorView, HandlerError,
    InvalidNameReason, InvalidUsernameReason, NewUser, NewUserView, User, UserView,
};
use crate::text::str_eq;
use vstd::prelude::*;

verus! {

/// The longest username, and the longest name, that is accepted, in bytes of
/// UTF-8.
pub const MAX_FIELD_BYTES: usize = 20;

/// What the auth check in front of every operation decides for a username.
pub open spec fn check_auth_spec(username: Seq<char>) -> Result<(), AuthError> {
    if username == "unauthenticated"@ {
        Err(AuthError::Unauthenticated)
    } else if username == "unauthorized"@ {
        Err(AuthError::Unauthorized)
    } else {
        Ok(())
    }
}

/// What fetching a user gives.
pub open spec fn get_user_spec(username: Seq<char>) -> Result<
    UserView,
    HandlerError<GetUserErrorView>,
> {
    if username == "unauthenticated"@ {
        Err(HandlerError::Unauthenticated)
    } else if username == "unauthorized"@ {
        Err(HandlerError::Unauthorized)
    } else if username == "not_found"@ {
        Err(HandlerError::ServiceError(GetUserErrorView::UserNotFound { username }))
    } else {
        Ok(UserView { username, name: "John Doe"@ })
    }
}

/// The first rule that a username breaks, if it breaks one.
pub open spec fn username_fault(username: Seq<char>) -> Option<CreateUserError> {
    if username.len() == 0 {
        Some(CreateUserError::InvalidUsername(InvalidUsernameReason::TooShort))
    } else if vstd::utf8::encode_utf8(username).len() > MAX_FIELD_BYTES {
        Some(CreateUserError::InvalidUsername(InvalidUsernameReason::TooLong))
    } else if username == "invalid"@ {
        Some(CreateUserError::InvalidUsername(InvalidUsernameReason::InvalidCharacters))
    } else if username == "taken"@ {
        Some(CreateUserError::UsernameAlreadyExists)
    } else {
        None
    }
}

/// The first rule that a name breaks, if it breaks one.
pub open spec fn name_fault(name: Seq<char>) -> Option<CreateUserError> {
    if name.len() == 0 {
        Some(CreateUserError::InvalidName(InvalidNameReason::TooShort))
    } else if vstd::utf8::encode_utf8(name).len() > MAX_FIELD_BYTES {
        Some(CreateUserError::InvalidName(InvalidNameReason::TooLong))
    } else if name == "invalid"@ {
        Some(CreateUserError::InvalidName(InvalidNameReason::InvalidCharacters))
    } else {
        None
    }
}

/// What creating a user gives: the username's fault, else the name's fault,
/// else the user as it was handed in.
pub open spec fn create_user_spec(new_user: NewUserView) -> Result<
    UserView,
    HandlerError<CreateUserError>,
> {
    match username_fault(new_user.username) {
        Some(fault) => Err(HandlerError::ServiceError(fault)),
        None => match name_fault(new_user.name) {
            Some(fault) => Err(HandlerError::ServiceError(fault)),
            None => Ok(UserView { username: new_user.username, name: new_user.name }),
        },
    }
}

/// Fetches a user. The directory is a stand-in: usernames chosen for the
/// purpose fail, each in its own way, and every other one belongs to
/// John Doe.
pub fn get_user(username: String) -> (r: Result<User, HandlerError<GetUserError>>)
    ensures
        result_view(r) == get_user_spec(username@),
{
    match check_auth(username.as_str()) {
        Err(err) => {
            return Err(HandlerError::from(err));
        },
        Ok(_) => {},
    }
    if str_eq(username.as_str(), "not_found") {
        return Err(HandlerError::service_error(GetUserError::UserNotFound { username }));
    }
    Ok(User { username, name: "John Doe".to_owned() })
}

/// Creates a user: checks the username, then the name, and hands the user
/// back as it came. Each field is checked for being empty, then for its
/// length, then for its content; the first rule broken is the one reported.
pub fn create_user(new_user: NewUser) -> (r: Result<User, HandlerError<CreateUserError>>)
    ensures
        result_view(r) == create_user_spec(new_user@),
{
    if new_user.username.as_str().is_empty() {
        return Err(
            HandlerError::service_error(
                CreateUserError::InvalidUsername(InvalidUsernameReason::TooShort),
            ),
        );
    } else if new_user.username.as_str().as_bytes().len() > MAX_FIELD_BYTES {
        return Err(
            HandlerError::service_error(
                CreateUserError::InvalidUsername(InvalidUsernameReason::TooLong),
            ),
        );
    } else if str_eq(new_user.username.as_str(), "invalid") {
        return Err(
            HandlerError::service_error(
                CreateUserError::InvalidUsername(InvalidUsernameReason::InvalidCharacters),
            ),
        );
    } else if str_eq(new_user.username.as_str(), "taken") {
        return Err(HandlerError::service_error(CreateUserError::UsernameAlreadyExists));
    }
    if new_user.name.as_str().is_empty() {
        return Err(
            HandlerError::service_error(CreateUserError::InvalidName(InvalidNameReason::TooShort)),
        );
    } else if new_user.name.as_str().as_bytes().len() > MAX_FIELD_BYTES {
        return Err(
            HandlerError::service_error(CreateUserError::InvalidName(InvalidNameReason::TooLong)),
        );
    } else if str_eq(new_user.name.as_str(), "invalid") {
        return Err(
            HandlerError::service_error(
                CreateUserError::InvalidName(InvalidNameReason::InvalidCharacters),
            ),
        );
    }
    Ok(User { username: new_user.username, name: new_user.name })
}

/// The auth check in front of every operation. It is a stand-in: one username is
/// taken to come without credentials, another to lack the right.
pub fn check_auth(username: &str) -> (r: Result<(), AuthError>)
    ensures
        r == check_auth_spec(username@),
{
    if str_eq(username, "unauthenticated") {
        Err(AuthError::Unauthenticated)
    } else if str_eq(username, "unauthorized") {
        Err(AuthError::Unauthorized)
    } else {
        Ok(())
    }
}

/// Fetching a user fails in each of its three ways for one username alone,
/// and succeeds for every other one, with the username as given and the name
/// John Doe.
pub proof fn lemma_get_user_cases(username: Seq<char>)
    ensures
        get_user_spec(username) == Err::<UserView, HandlerError<GetUserErrorView>>(
            HandlerError::Unauthenticated,
        ) <==> username == "unauthenticated"@,
        get_user_spec(username) == Err::<UserView, HandlerError<GetUserErrorView>>(
            HandlerError::Unauthorized,
        ) <==> username == "unauthorized"@,
        get_user_spec(username) == Err::<UserView, HandlerError<GetUserErrorView>>(
            HandlerError::ServiceError(GetUserErrorView::UserNotFound { username }),
        ) <==> username == "not_found"@,
        get_user_spec(username) == Ok::<UserView, HandlerError<GetUserErrorView>>(
            UserView { username, name: "John Doe"@ },
        ) <==> username != "unauthenticated"@ && username != "unauthorized"@ && username
            != "not_found"@,
{
    reveal_strlit("unauthenticated");
    reveal_strlit("unauthorized");
    reveal_strlit("not_found");
    assert("unauthenticated"@.len() == 15);
    assert("unauthorized"@.len() == 12);
    assert("not_found"@.len() == 9);
}

/// The auth check speaks first: where it refuses a username, fetching the user
/// fails with that refusal.
pub proof fn lemma_auth_check_comes_first(username: Seq<char>)
    ensures
        check_auth_spec(username) matches Err(refusal) ==> get_user_spec(username) == Err::<
            UserView,
            HandlerError<GetUserErrorView>,
        >(HandlerError::refusal(refusal)),
        check_auth_spec(username) is Ok ==> get_user_spec(username) != Err::<
            UserView,
            HandlerError<GetUserErrorView>,
        >(HandlerError::Unauthenticated) && get_user_spec(username) != Err::<
            UserView,
            HandlerError<GetUserErrorView>,
        >(HandlerError::Unauthorized),
{
}

/// The username is checked before the name: a username at fault gives its
/// own fault, whatever the name is.
pub proof fn lemma_username_is_checked_first(username: Seq<char>, name: Seq<char>)
    requires
        username_fault(username) is Some,
    ensures
        create_user_spec(NewUserView { username, name }) == Err::<
            UserView,
            HandlerError<CreateUserError>,
        >(HandlerError::ServiceError(username_fault(username)->0)),
{
}

/// An empty username is too short, whatever the name is.
pub proof fn lemma_empty_username_is_too_short(name: Seq<char>)
    ensures
        create_user_spec(NewUserView { username: Seq::empty(), name }) == Err::<
            UserView,
            HandlerError<CreateUserError>,
        >(
            HandlerError::ServiceError(
                CreateUserError::InvalidUsername(InvalidUsernameReason::TooShort),
            ),
        ),
{
}

/// Within a field, length is checked before content: a field that is not
/// empty and longer than the limit is too long, whatever it holds.
pub proof fn lemma_length_is_checked_before_content(field: Seq<char>)
    requires
        field.len() > 0,
        vstd::utf8::encode_utf8(field).len() > MAX_FIELD_BYTES,
    ensures
        username_fault(field) == Some(
            CreateUserError::InvalidUsername(InvalidUsernameReason::TooLong),
        ),
        name_fault(field) == Some(CreateUserError::InvalidName(InvalidNameReason::TooLong)),
{
}

/// With a username that breaks no rule, the name's fault is the one
/// reported.
pub proof fn lemma_name_is_checked_second(username: Seq<char>, name: Seq<char>)
    requires
        username_fault(username) is None,
        name_fault(name) is Some,
    ensures
        create_user_spec(NewUserView { username, name }) == Err::<
            UserView,
            HandlerError<CreateUserError>,
        >(HandlerError::ServiceError(name_fault(name)->0)),
{
}

/// A user is created exactly where neither field breaks a rule, and is then
/// handed back as it came. Creating a user is never refused by the auth check.
pub proof fn lemma_create_user_echoes(username: Seq<char>, name: Seq<char>)
    ensures
        create_user_spec(NewUserView { username, name }) is Ok <==> username_fault(username)
            is None && name_fault(name) is None,
        create_user_spec(NewUserView { username, name }) matches Ok(user) ==> user.username
            == username && user.name == name,
        create_user_spec(NewUserView { username, name }) matches Err(error)
            ==> error is ServiceError,
{
}

} // verus!
