use crate::json::{
    as_text, get_member, is_null, is_plain, json_document, json_is_null, json_member,
    json_quoted, json_text, lemma_plain_text_is_quoted_as_it_is, parse_document, quoted,
};
use crate::models::{
    option_view, CreateUserError, GetUserError, GetUserErrorView, InvalidNameReason,
    InvalidUsernameReason, NewUser, User, UserView,
};
use crate::text::str_eq;
use vstd::prelude::*;
use vstd::string::StringExecFns;

verus! {

/// The word that names an error on the wire.
#[derive(Debug, Clone, Copy, PartialEq, Eq, Structural)]
pub enum Tag {
    Unauthenticated,
    Unauthorized,
    UserNotFound,
    UsernameAlreadyExists,
    InvalidUsername,
    InvalidName,
}

impl Tag {
    /// The tag as it is written.
    pub open spec fn name_spec(self) -> Seq<char> {
        match self {
            Tag::Unauthenticated => "Unauthenticated"@,
            Tag::Unauthorized => "Unauthorized"@,
            Tag::UserNotFound => "UserNotFound"@,
            Tag::UsernameAlreadyExists => "UsernameAlreadyExists"@,
            Tag::InvalidUsername => "InvalidUsername"@,
            Tag::InvalidName => "InvalidName"@,
        }
    }

    /// The tag that a word stands for, if it stands for one.
    pub open spec fn from_name_spec(name: Seq<char>) -> Option<Tag> {
        if name == "Unauthenticated"@ {
            Some(Tag::Unauthenticated)
        } else if name == "Unauthorized"@ {
            Some(Tag::Unauthorized)
        } else if name == "UserNotFound"@ {
            Some(Tag::UserNotFound)
        } else if name == "UsernameAlreadyExists"@ {
            Some(Tag::UsernameAlreadyExists)
        } else if name == "InvalidUsername"@ {
            Some(Tag::InvalidUsername)
        } else if name == "InvalidName"@ {
            Some(Tag::InvalidName)
        } else {
            None
        }
    }

    /// The tag as it is written.
    pub fn name(self) -> (r: &'static str)
        ensures
            r@ == self.name_spec(),
    {
        match self {
            Tag::Unauthenticated => "Unauthenticated",
            Tag::Unauthorized => "Unauthorized",
            Tag::UserNotFound => "UserNotFound",
            Tag::UsernameAlreadyExists => "UsernameAlreadyExists",
            Tag::InvalidUsername => "InvalidUsername",
            Tag::InvalidName => "InvalidName",
        }
    }

    /// Reads a tag. The spelling is exact: no other case, no space.
    pub fn from_name(name: &str) -> (r: Option<Tag>)
        ensures
            r == Tag::from_name_spec(name@),
    {
        if str_eq(name, "Unauthenticated") {
            Some(Tag::Unauthenticated)
        } else if str_eq(name, "Unauthorized") {
            Some(Tag::Unauthorized)
        } else if str_eq(name, "UserNotFound") {
            Some(Tag::UserNotFound)
        } else if str_eq(name, "UsernameAlreadyExists") {
            Some(Tag::UsernameAlreadyExists)
        } else if str_eq(name, "InvalidUsername") {
            Some(Tag::InvalidUsername)
        } else if str_eq(name, "InvalidName") {
            Some(Tag::InvalidName)
        } else {
            None
        }
    }
}

/// Why a field was refused, as the wire says it. The username's reasons and
/// the name's are written with the same words.
#[derive(Debug, Clone, Copy, PartialEq, Eq, Structural)]
pub enum Reason {
    TooShort,
    TooLong,
    InvalidCharacters,
}

impl Reason {
    /// The reason as it is written.
    pub open spec fn name_spec(self) -> Seq<char> {
        match self {
            Reason::TooShort => "TooShort"@,
            Reason::TooLong => "TooLong"@,
            Reason::InvalidCharacters => "InvalidCharacters"@,
        }
    }

    /// The reason that a word stands for, if it stands for one.
    pub open spec fn from_name_spec(name: Seq<char>) -> Option<Reason> {
        if name == "TooShort"@ {
            Some(Reason::TooShort)
        } else if name == "TooLong"@ {
            Some(Reason::TooLong)
        } else if name == "InvalidCharacters"@ {
            Some(Reason::InvalidCharacters)
        } else {
            None
        }
    }

    /// The reason as it is written.
    pub fn name(self) -> (r: &'static str)
        ensures
            r@ == self.name_spec(),
    {
        match self {
            Reason::TooShort => "TooShort",
            Reason::TooLong => "TooLong",
            Reason::InvalidCharacters => "InvalidCharacters",
        }
    }

    /// Reads a reason. The spelling is exact.
    pub fn from_name(name: &str) -> (r: Option<Reason>)
        ensures
            r == Reason::from_name_spec(name@),
    {
        if str_eq(name, "TooShort") {
            Some(Reason::TooShort)
        } else if str_eq(name, "TooLong") {
            Some(Reason::TooLong)
        } else if str_eq(name, "InvalidCharacters") {
            Some(Reason::InvalidCharacters)
        } else {
            None
        }
    }
}

/// Reading a tag's word gives the tag back: no two tags share a word.
pub proof fn lemma_tag_name_round_trip(tag: Tag)
    ensures
        Tag::from_name_spec(tag.name_spec()) == Some(tag),
{
    reveal_strlit("Unauthenticated");
    reveal_strlit("Unauthorized");
    reveal_strlit("UserNotFound");
    reveal_strlit("UsernameAlreadyExists");
    reveal_strlit("InvalidUsername");
    reveal_strlit("InvalidName");
    assert("Unauthenticated"@.len() == 15 && "Unauthenticated"@[0] == 'U');
    assert("Unauthorized"@.len() == 12 && "Unauthorized"@[1] == 'n');
    assert("UserNotFound"@.len() == 12 && "UserNotFound"@[1] == 's');
    assert("UsernameAlreadyExists"@.len() == 21);
    assert("InvalidUsername"@.len() == 15 && "InvalidUsername"@[0] == 'I');
    assert("InvalidName"@.len() == 11);
}

/// Reading a reason's word gives the reason back.
pub proof fn lemma_reason_name_round_trip(reason: Reason)
    ensures
        Reason::from_name_spec(reason.name_spec()) == Some(reason),
{
    reveal_strlit("TooShort");
    reveal_strlit("TooLong");
    reveal_strlit("InvalidCharacters");
    assert("TooShort"@.len() == 8);
    assert("TooLong"@.len() == 7);
    assert("InvalidCharacters"@.len() == 17);
}

/// What an error carries on the wire besides its tag.
#[derive(Debug, Clone, PartialEq, Eq)]
pub enum Details {
    /// Nothing: the field is left out. A field that is `null` reads the same.
    Empty,
    /// A reason, written as a string.
    Reason(Reason),
    /// A username, written as an object with the one field `username`.
    Username(String),
}

/// `Details` as plain values.
pub enum DetailsView {
    Empty,
    Reason(Reason),
    Username(Seq<char>),
}

impl View for Details {
    type V = DetailsView;

    open spec fn view(&self) -> DetailsView {
        match self {
            Details::Empty => DetailsView::Empty,
            Details::Reason(reason) => DetailsView::Reason(*reason),
            Details::Username(username) => DetailsView::Username(username@),
        }
    }
}

/// An error as it crosses the wire: the tag that names it, and its details.
#[derive(Debug, Clone, PartialEq, Eq)]
pub struct Envelope {
    pub tag: Tag,
    pub details: Details,
}

/// An `Envelope` as plain values.
pub struct EnvelopeView {
    pub tag: Tag,
    pub details: DetailsView,
}

impl View for Envelope {
    type V = EnvelopeView;

    open spec fn view(&self) -> EnvelopeView {
        EnvelopeView { tag: self.tag, details: self.details@ }
    }
}

/// The part of an envelope's text that holds the details: nothing, or the
/// field with the comma before it.
pub open spec fn details_text(details: DetailsView) -> Seq<char> {
    match details {
        DetailsView::Empty => Seq::empty(),
        DetailsView::Reason(reason) => ",\"details\":\""@ + reason.name_spec() + "\""@,
        DetailsView::Username(username) => ",\"details\":{\"username\":"@ + json_quoted(username)
            + "}"@,
    }
}

/// The JSON text of an envelope, character for character: the tag under
/// `error`, then the details, if there are any, under `details`.
pub open spec fn envelope_text(envelope: EnvelopeView) -> Seq<char> {
    "{\"error\":\""@ + envelope.tag.name_spec() + "\""@ + details_text(envelope.details) + "}"@
}

/// A username of plain characters stands in the envelope's text as it is,
/// between quotes.
pub proof fn lemma_text_with_a_plain_username(tag: Tag, username: Seq<char>)
    requires
        forall|i: int| 0 <= i < username.len() ==> is_plain(#[trigger] username[i]),
    ensures
        envelope_text(EnvelopeView { tag, details: DetailsView::Username(username) })
            == "{\"error\":\""@ + tag.name_spec() + "\",\"details\":{\"username\":\""@ + username
            + "\"}}"@,
{
    lemma_plain_text_is_quoted_as_it_is(username);
    reveal_strlit("\"");
    reveal_strlit("}");
    reveal_strlit(",\"details\":{\"username\":");
    reveal_strlit("\",\"details\":{\"username\":\"");
    reveal_strlit("\"}}");
    let written = envelope_text(EnvelopeView { tag, details: DetailsView::Username(username) });
    let plain = "{\"error\":\""@ + tag.name_spec() + "\",\"details\":{\"username\":\""@
        + username + "\"}}"@;
    assert(json_quoted(username) =~= "\""@ + username + "\""@);
    assert(written =~= plain);
}

/// The tag that a JSON document names under `error`.
pub open spec fn tag_of_document(document: serde_json::Value) -> Option<Tag> {
    match json_member(document, "error"@) {
        None => None,
        Some(word) => match json_text(word) {
            None => None,
            Some(name) => Tag::from_name_spec(name),
        },
    }
}

/// The details that a JSON document holds under `details`. A document
/// without the field, or with `null` there, has empty details; a string is a
/// reason, if it is the word of one; an object gives the string that it holds
/// under `username`. Anything else is no details at all.
pub open spec fn details_of_document(document: serde_json::Value) -> Option<DetailsView> {
    match json_member(document, "details"@) {
        None => Some(DetailsView::Empty),
        Some(details) => if json_is_null(details) {
            Some(DetailsView::Empty)
        } else {
            match json_text(details) {
                Some(word) => match Reason::from_name_spec(word) {
                    Some(reason) => Some(DetailsView::Reason(reason)),
                    None => None,
                },
                None => match json_member(details, "username"@) {
                    None => None,
                    Some(field) => match json_text(field) {
                        None => None,
                        Some(username) => Some(DetailsView::Username(username)),
                    },
                },
            }
        },
    }
}

/// The envelope that a JSON document is, if it is one.
pub open spec fn envelope_of_document(document: serde_json::Value) -> Option<EnvelopeView> {
    match tag_of_document(document) {
        None => None,
        Some(tag) => match details_of_document(document) {
            None => None,
            Some(details) => Some(EnvelopeView { tag, details }),
        },
    }
}

/// The envelope that a body holds: the body is a JSON text, and the document
/// in it is an envelope.
pub open spec fn envelope_of_body(body: Seq<u8>) -> Option<EnvelopeView> {
    match json_document(body) {
        None => None,
        Some(document) => envelope_of_document(document),
    }
}

impl Details {
    /// Reads the details of a JSON document.
    pub fn from_document(document: &serde_json::Value) -> (r: Option<Details>)
        ensures
            option_view(r) == details_of_document(*document),
    {
        let details = match get_member(document, "details") {
            None => {
                return Some(Details::Empty);
            },
            Some(details) => details,
        };
        if is_null(details) {
            return Some(Details::Empty);
        }
        match as_text(details) {
            Some(word) => match Reason::from_name(word) {
                Some(reason) => Some(Details::Reason(reason)),
                None => None,
            },
            None => match get_member(details, "username") {
                None => None,
                Some(field) => match as_text(field) {
                    None => None,
                    Some(username) => Some(Details::Username(username.to_owned())),
                },
            },
        }
    }
}

impl Envelope {
    /// Writes the envelope as JSON text.
    pub fn to_json(&self) -> (json: String)
        ensures
            json@ == envelope_text(self@),
    {
        let mut json = "{\"error\":\"".to_owned();
        json.append(self.tag.name());
        json.append("\"");
        match &self.details {
            Details::Empty => {},
            Details::Reason(reason) => {
                json.append(",\"details\":\"");
                json.append(reason.name());
                json.append("\"");
            },
            Details::Username(username) => {
                json.append(",\"details\":{\"username\":");
                json.append(quoted(username.as_str()).as_str());
                json.append("}");
            },
        }
        json.append("}");
        assert(json@ =~= envelope_text(self@));
        json
    }

    /// Reads the envelope that a JSON document is.
    pub fn from_document(document: &serde_json::Value) -> (r: Option<Envelope>)
        ensures
            option_view(r) == envelope_of_document(*document),
    {
        let tag = match get_member(document, "error") {
            None => {
                return None;
            },
            Some(word) => match as_text(word) {
                None => {
                    return None;
                },
                Some(name) => match Tag::from_name(name) {
                    None => {
                        return None;
                    },
                    Some(tag) => tag,
                },
            },
        };
        match Details::from_document(document) {
            None => None,
            Some(details) => Some(Envelope { tag, details }),
        }
    }

    /// Reads the envelope that a body holds.
    pub fn from_json(body: &[u8]) -> (r: Option<Envelope>)
        ensures
            option_view(r) == envelope_of_body(body@),
    {
        match parse_document(body) {
            Err(_) => None,
            Ok(document) => Envelope::from_document(&document),
        }
    }
}

/// Whether a JSON document has the shape in which an envelope is written:
/// the tag's word under `error`; no `details` for empty details, the reason's
/// word there for a reason, and for a username an object there that holds it
/// under `username`.
pub open spec fn document_holds(document: serde_json::Value, envelope: EnvelopeView) -> bool {
    &&& json_member(document, "error"@) matches Some(word) && json_text(word) == Some(
        envelope.tag.name_spec(),
    )
    &&& match envelope.details {
        DetailsView::Empty => json_member(document, "details"@) is None,
        DetailsView::Reason(reason) => json_member(document, "details"@) matches Some(details)
            && !json_is_null(details) && json_text(details) == Some(reason.name_spec()),
        DetailsView::Username(username) => json_member(document, "details"@) matches Some(
            details,
        ) && !json_is_null(details) && json_text(details) is None && (json_member(
            details,
            "username"@,
        ) matches Some(field) && json_text(field) == Some(username)),
    }
}

/// Writer and reader agree: a document with the shape in which an envelope
/// is written is read as that envelope.
pub proof fn lemma_written_envelope_reads_back(
    document: serde_json::Value,
    envelope: EnvelopeView,
)
    requires
        document_holds(document, envelope),
    ensures
        envelope_of_document(document) == Some(envelope),
{
    lemma_tag_name_round_trip(envelope.tag);
    match envelope.details {
        DetailsView::Reason(reason) => {
            lemma_reason_name_round_trip(reason);
        },
        _ => {},
    }
}

/// An error of one operation: it has a status, and an envelope from which it
/// can be read again.
pub trait ServiceError: View + Sized {
    /// The status that goes with an error.
    spec fn status_spec(error: Self::V) -> u16;

    /// The envelope that stands for an error.
    spec fn envelope_spec(error: Self::V) -> EnvelopeView;

    /// The error that an envelope stands for, if it stands for one of this
    /// operation.
    spec fn from_envelope_spec(envelope: EnvelopeView) -> Option<Self::V>;

    /// The status that goes with this error.
    fn status(&self) -> (code: u16)
        ensures
            code == Self::status_spec(self@),
    ;

    /// The envelope that stands for this error.
    fn envelope(&self) -> (envelope: Envelope)
        ensures
            envelope@ == Self::envelope_spec(self@),
    ;

    /// Reads an error of this operation from an envelope.
    fn from_envelope(envelope: Envelope) -> (error: Option<Self>)
        ensures
            option_view(error) == Self::from_envelope_spec(envelope@),
    ;

    /// Reading the envelope of an error gives that error back.
    proof fn lemma_round_trip(error: Self::V)
        ensures
            Self::from_envelope_spec(Self::envelope_spec(error)) == Some(error),
    ;

    /// The status of an error tells the client that the request was at
    /// fault, and is neither of the two that stand for the refusals of the auth check.
    proof fn lemma_status_is_its_own(error: Self::V)
        ensures
            400 <= Self::status_spec(error) < 500,
            Self::status_spec(error) != 401,
            Self::status_spec(error) != 403,
    ;
}

impl InvalidUsernameReason {
    /// The reason as the wire says it.
    pub open spec fn reason_spec(self) -> Reason {
        match self {
            InvalidUsernameReason::TooShort => Reason::TooShort,
            InvalidUsernameReason::TooLong => Reason::TooLong,
            InvalidUsernameReason::InvalidCharacters => Reason::InvalidCharacters,
        }
    }

    /// What a reason on the wire says of a username.
    pub open spec fn from_reason_spec(reason: Reason) -> InvalidUsernameReason {
        match reason {
            Reason::TooShort => InvalidUsernameReason::TooShort,
            Reason::TooLong => InvalidUsernameReason::TooLong,
            Reason::InvalidCharacters => InvalidUsernameReason::InvalidCharacters,
        }
    }

    /// The reason as the wire says it.
    pub fn reason(self) -> (r: Reason)
        ensures
            r == self.reason_spec(),
    {
        match self {
            InvalidUsernameReason::TooShort => Reason::TooShort,
            InvalidUsernameReason::TooLong => Reason::TooLong,
            InvalidUsernameReason::InvalidCharacters => Reason::InvalidCharacters,
        }
    }

    /// What a reason on the wire says of a username.
    pub fn from_reason(reason: Reason) -> (r: InvalidUsernameReason)
        ensures
            r == InvalidUsernameReason::from_reason_spec(reason),
    {
        match reason {
            Reason::TooShort => InvalidUsernameReason::TooShort,
            Reason::TooLong => InvalidUsernameReason::TooLong,
            Reason::InvalidCharacters => InvalidUsernameReason::InvalidCharacters,
        }
    }
}

impl InvalidNameReason {
    /// The reason as the wire says it.
    pub open spec fn reason_spec(self) -> Reason {
        match self {
            InvalidNameReason::TooShort => Reason::TooShort,
            InvalidNameReason::TooLong => Reason::TooLong,
            InvalidNameReason::InvalidCharacters => Reason::InvalidCharacters,
        }
    }

    /// What a reason on the wire says of a name.
    pub open spec fn from_reason_spec(reason: Reason) -> InvalidNameReason {
        match reason {
            Reason::TooShort => InvalidNameReason::TooShort,
            Reason::TooLong => InvalidNameReason::TooLong,
            Reason::InvalidCharacters => InvalidNameReason::InvalidCharacters,
        }
    }

    /// The reason as the wire says it.
    pub fn reason(self) -> (r: Reason)
        ensures
            r == self.reason_spec(),
    {
        match self {
            InvalidNameReason::TooShort => Reason::TooShort,
            InvalidNameReason::TooLong => Reason::TooLong,
            InvalidNameReason::InvalidCharacters => Reason::InvalidCharacters,
        }
    }

    /// What a reason on the wire says of a name.
    pub fn from_reason(reason: Reason) -> (r: InvalidNameReason)
        ensures
            r == InvalidNameReason::from_reason_spec(reason),
    {
        match reason {
            Reason::TooShort => InvalidNameReason::TooShort,
            Reason::TooLong => InvalidNameReason::TooLong,
            Reason::InvalidCharacters => InvalidNameReason::InvalidCharacters,
        }
    }
}

impl ServiceError for GetUserError {
    open spec fn status_spec(error: GetUserErrorView) -> u16 {
        match error {
            GetUserErrorView::UserNotFound { .. } => 404,
        }
    }

    open spec fn envelope_spec(error: GetUserErrorView) -> EnvelopeView {
        match error {
            GetUserErrorView::UserNotFound { username } => EnvelopeView {
                tag: Tag::UserNotFound,
                details: DetailsView::Username(username),
            },
        }
    }

    open spec fn from_envelope_spec(envelope: EnvelopeView) -> Option<GetUserErrorView> {
        match (envelope.tag, envelope.details) {
            (Tag::UserNotFound, DetailsView::Username(username)) => Some(
                GetUserErrorView::UserNotFound { username },
            ),
            _ => None,
        }
    }

    fn status(&self) -> (code: u16) {
        match self {
            GetUserError::UserNotFound { .. } => 404,
        }
    }

    fn envelope(&self) -> (envelope: Envelope) {
        match self {
            GetUserError::UserNotFound { username } => Envelope {
                tag: Tag::UserNotFound,
                details: Details::Username(username.clone()),
            },
        }
    }

    fn from_envelope(envelope: Envelope) -> (error: Option<Self>) {
        match (envelope.tag, envelope.details) {
            (Tag::UserNotFound, Details::Username(username)) => Some(
                GetUserError::UserNotFound { username },
            ),
            _ => None,
        }
    }

    proof fn lemma_round_trip(error: GetUserErrorView) {
    }

    proof fn lemma_status_is_its_own(error: GetUserErrorView) {
    }
}

impl ServiceError for CreateUserError {
    open spec fn status_spec(error: CreateUserError) -> u16 {
        400
    }

    open spec fn envelope_spec(error: CreateUserError) -> EnvelopeView {
        match error {
            CreateUserError::UsernameAlreadyExists => EnvelopeView {
                tag: Tag::UsernameAlreadyExists,
                details: DetailsView::Empty,
            },
            CreateUserError::InvalidUsername(reason) => EnvelopeView {
                tag: Tag::InvalidUsername,
                details: DetailsView::Reason(reason.reason_spec()),
            },
            CreateUserError::InvalidName(reason) => EnvelopeView {
                tag: Tag::InvalidName,
                details: DetailsView::Reason(reason.reason_spec()),
            },
        }
    }

    open spec fn from_envelope_spec(envelope: EnvelopeView) -> Option<CreateUserError> {
        match (envelope.tag, envelope.details) {
            (Tag::UsernameAlreadyExists, DetailsView::Empty) => Some(
                CreateUserError::UsernameAlreadyExists,
            ),
            (Tag::InvalidUsername, DetailsView::Reason(reason)) => Some(
                CreateUserError::InvalidUsername(InvalidUsernameReason::from_reason_spec(reason)),
            ),
            (Tag::InvalidName, DetailsView::Reason(reason)) => Some(
                CreateUserError::InvalidName(InvalidNameReason::from_reason_spec(reason)),
            ),
            _ => None,
        }
    }

    fn status(&self) -> (code: u16) {
        400
    }

    fn envelope(&self) -> (envelope: Envelope) {
        match self {
            CreateUserError::UsernameAlreadyExists => Envelope {
                tag: Tag::UsernameAlreadyExists,
                details: Details::Empty,
            },
            CreateUserError::InvalidUsername(reason) => Envelope {
                tag: Tag::InvalidUsername,
                details: Details::Reason(reason.reason()),
            },
            CreateUserError::InvalidName(reason) => Envelope {
                tag: Tag::InvalidName,
                details: Details::Reason(reason.reason()),
            },
        }
    }

    fn from_envelope(envelope: Envelope) -> (error: Option<Self>) {
        match (envelope.tag, envelope.details) {
            (Tag::UsernameAlreadyExists, Details::Empty) => Some(
                CreateUserError::UsernameAlreadyExists,
            ),
            (Tag::InvalidUsername, Details::Reason(reason)) => Some(
                CreateUserError::InvalidUsername(InvalidUsernameReason::from_reason(reason)),
            ),
            (Tag::InvalidName, Details::Reason(reason)) => Some(
                CreateUserError::InvalidName(InvalidNameReason::from_reason(reason)),
            ),
            _ => None,
        }
    }

    proof fn lemma_round_trip(error: CreateUserError) {
    }

    proof fn lemma_status_is_its_own(error: CreateUserError) {
    }
}

/// The error of an operation that a body holds: the body is an envelope, and
/// the envelope stands for an error of that operation.
pub open spec fn error_of_body<E: ServiceError>(body: Seq<u8>) -> Option<E::V> {
    match envelope_of_body(body) {
        None => None,
        Some(envelope) => E::from_envelope_spec(envelope),
    }
}

/// Reads the error of an operation from a body.
pub fn decode_error<E: ServiceError>(body: &[u8]) -> (r: Option<E>)
    ensures
        option_view(r) == error_of_body::<E>(body@),
{
    match Envelope::from_json(body) {
        None => None,
        Some(envelope) => E::from_envelope(envelope),
    }
}

/// An error reads back from a body that holds its envelope: where the body
/// is JSON with the shape in which the error's envelope is written, reading
/// the body gives the error. That serde_json reads the written text as a
/// document of that shape is the premise, and is not proved here.
pub proof fn lemma_error_reads_back_from_its_body<E: ServiceError>(error: E::V, body: Seq<u8>)
    requires
        json_document(body) matches Some(document) && document_holds(
            document,
            E::envelope_spec(error),
        ),
    ensures
        envelope_of_body(body) == Some(E::envelope_spec(error)),
        error_of_body::<E>(body) == Some(error),
{
    lemma_written_envelope_reads_back(json_document(body)->0, E::envelope_spec(error));
    E::lemma_round_trip(error);
}

/// What a call gives when it succeeds: a value that can be read from a JSON
/// document.
pub trait Payload: View + Sized {
    /// The value that a JSON document holds, if it holds one.
    spec fn from_document_spec(document: serde_json::Value) -> Option<Self::V>;

    /// Reads the value from a JSON document.
    fn from_document(document: &serde_json::Value) -> (r: Option<Self>)
        ensures
            option_view(r) == Self::from_document_spec(*document),
    ;
}

/// The value that a body holds: the body is a JSON text, and the document in
/// it holds a value.
pub open spec fn payload_of_body<T: Payload>(body: Seq<u8>) -> Option<T::V> {
    match json_document(body) {
        None => None,
        Some(document) => T::from_document_spec(document),
    }
}

/// Reads a value from a body.
pub fn decode_payload<T: Payload>(body: &[u8]) -> (r: Option<T>)
    ensures
        option_view(r) == payload_of_body::<T>(body@),
{
    match parse_document(body) {
        Err(_) => None,
        Ok(document) => T::from_document(&document),
    }
}

/// The JSON text of a user, and of a new user: the username under
/// `username`, then the name under `name`.
pub open spec fn user_text(username: Seq<char>, name: Seq<char>) -> Seq<char> {
    "{\"username\":"@ + json_quoted(username) + ",\"name\":"@ + json_quoted(name) + "}"@
}

/// Writes the two fields of a user as JSON text.
fn write_user(username: &str, name: &str) -> (json: String)
    ensures
        json@ == user_text(username@, name@),
{
    let mut json = "{\"username\":".to_owned();
    json.append(quoted(username).as_str());
    json.append(",\"name\":");
    json.append(quoted(name).as_str());
    json.append("}");
    assert(json@ =~= user_text(username@, name@));
    json
}

impl User {
    /// Writes the user as JSON text.
    pub fn to_json(&self) -> (json: String)
        ensures
            json@ == user_text(self.username@, self.name@),
    {
        write_user(self.username.as_str(), self.name.as_str())
    }
}

impl NewUser {
    /// Writes the new user as JSON text.
    pub fn to_json(&self) -> (json: String)
        ensures
            json@ == user_text(self.username@, self.name@),
    {
        write_user(self.username.as_str(), self.name.as_str())
    }
}

impl Payload for User {
    /// A user is an object with a string under `username` and a string under
    /// `name`.
    open spec fn from_document_spec(document: serde_json::Value) -> Option<UserView> {
        match json_member(document, "username"@) {
            None => None,
            Some(first) => match json_text(first) {
                None => None,
                Some(username) => match json_member(document, "name"@) {
                    None => None,
                    Some(second) => match json_text(second) {
                        None => None,
                        Some(name) => Some(UserView { username, name }),
                    },
                },
            },
        }
    }

    fn from_document(document: &serde_json::Value) -> (r: Option<User>) {
        let username = match get_member(document, "username") {
            None => {
                return None;
            },
            Some(first) => match as_text(first) {
                None => {
                    return None;
                },
                Some(username) => username,
            },
        };
        match get_member(document, "name") {
            None => None,
            Some(second) => match as_text(second) {
                None => None,
                Some(name) => Some(User { username: username.to_owned(), name: name.to_owned() }),
            },
        }
    }
}

} // verus!
