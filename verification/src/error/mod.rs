//! The error type shared by every resource, and the normaliser that builds it.
//!
//! A request ends in one of two ways: the transport fails, or a response
//! arrives. [`normalize`] turns either outcome into the response itself,
//! untouched, where its status is 200, and into one [`Error`] otherwise.
use vstd::prelude::*;
use crate::json::{json_members, member, member_at, member_view, parse_document, Member, MemberModel};
use crate::transport::{Response, TransportFailure};

verus! {

/// The error body that the service sends along with a failure status.
#[derive(Debug, Clone, PartialEq, Eq)]
pub struct BrasilAPIError {
    pub message: String,
    pub name: Option<String>,
    pub kind: String,
}

/// The mathematical counterpart of [`BrasilAPIError`].
pub struct BrasilAPIErrorModel {
    pub message: Seq<char>,
    pub name: Option<Seq<char>>,
    pub kind: Seq<char>,
}

/// Coarse classification of a failed request.
#[derive(Debug, Clone, Copy, PartialEq, Eq, Structural)]
pub enum Errored {
    NotFound,
    InternalServerError,
    BadRequest,
    Unexpected,
}

/// The one error type that every resource hands to its caller.
#[derive(Debug, Clone, PartialEq, Eq)]
pub struct Error {
    pub code: Option<u16>,
    pub api_error: Option<BrasilAPIError>,
    pub message: String,
    pub error: Errored,
}

/// The mathematical counterpart of [`Error`].
pub struct ErrorModel {
    pub code: Option<u16>,
    pub api_error: Option<BrasilAPIErrorModel>,
    pub message: Seq<char>,
    pub error: Errored,
}

/// The view of an optional string.
pub open spec fn text_view(text: Option<String>) -> Option<Seq<char>> {
    match text {
        Some(t) => Some(t@),
        None => None,
    }
}

/// The view of an optional error body.
pub open spec fn payload_view(payload: Option<BrasilAPIError>) -> Option<BrasilAPIErrorModel> {
    match payload {
        Some(p) => Some(p@),
        None => None,
    }
}

impl View for BrasilAPIError {
    type V = BrasilAPIErrorModel;

    open spec fn view(&self) -> BrasilAPIErrorModel {
        BrasilAPIErrorModel {
            message: self.message@,
            name: text_view(self.name),
            kind: self.kind@,
        }
    }
}

impl View for Error {
    type V = ErrorModel;

    open spec fn view(&self) -> ErrorModel {
        ErrorModel {
            code: self.code,
            api_error: payload_view(self.api_error),
            message: self.message@,
            error: self.error,
        }
    }
}

impl BrasilAPIError {
    /// The error body that three members of a JSON object stand for: the
    /// message and the type must be strings, the name may be a string, `null`
    /// or absent. Any other combination stands for none.
    pub open spec fn of_members(
        message: Option<MemberModel>,
        name: Option<MemberModel>,
        kind: Option<MemberModel>,
    ) -> Option<BrasilAPIErrorModel> {
        match (message, kind) {
            (Some(MemberModel::Text(m)), Some(MemberModel::Text(k))) => match name {
                None | Some(MemberModel::Null) => Some(
                    BrasilAPIErrorModel { message: m, name: None, kind: k },
                ),
                Some(MemberModel::Text(n)) => Some(
                    BrasilAPIErrorModel { message: m, name: Some(n), kind: k },
                ),
                Some(MemberModel::Other) => None,
            },
            _ => None,
        }
    }

    /// The error body that a set of members stands for, read from the keys
    /// `message`, `name` and `type`.
    pub open spec fn of_document(members: Map<Seq<char>, MemberModel>) -> Option<
        BrasilAPIErrorModel,
    > {
        Self::of_members(
            member_at(members, "message"@),
            member_at(members, "name"@),
            member_at(members, "type"@),
        )
    }

    /// The error body that a text stands for: none where the text is not
    /// JSON, and otherwise what its members stand for.
    pub open spec fn of_text(text: Seq<char>) -> Option<BrasilAPIErrorModel> {
        match json_members(text) {
            Some(members) => Self::of_document(members),
            None => None,
        }
    }

    /// Builds the error body from the three members read out of a document.
    pub fn from_members(message: Option<Member>, name: Option<Member>, kind: Option<Member>) -> (payload:
        Option<Self>)
        ensures
            payload_view(payload) == Self::of_members(
                member_view(message),
                member_view(name),
                member_view(kind),
            ),
    {
        let message = match message {
            Some(Member::Text(m)) => m,
            _ => return None,
        };
        let kind = match kind {
            Some(Member::Text(k)) => k,
            _ => return None,
        };
        let name = match name {
            None => None,
            Some(Member::Null) => None,
            Some(Member::Text(n)) => Some(n),
            Some(Member::Other) => return None,
        };
        Some(BrasilAPIError { message, name, kind })
    }

    /// Reads the error body out of a text, best effort: a text that is not
    /// JSON, or whose members do not have the expected shape, gives `None`.
    pub fn parse(text: &str) -> (payload: Option<Self>)
        ensures
            payload_view(payload) == Self::of_text(text@),
    {
        match parse_document(text) {
            Some(document) => {
                let message = member(&document, "message");
                let name = member(&document, "name");
                let kind = member(&document, "type");
                Self::from_members(message, name, kind)
            },
            None => None,
        }
    }
}

impl Errored {
    /// The classification table: 404, 500 and 400 have a kind of their own,
    /// every other status, and the absence of one, is `Unexpected`.
    pub open spec fn classify(status_code: Option<u16>) -> Errored {
        match status_code {
            Some(code) => if code == 404 {
                Errored::NotFound
            } else if code == 500 {
                Errored::InternalServerError
            } else if code == 400 {
                Errored::BadRequest
            } else {
                Errored::Unexpected
            },
            None => Errored::Unexpected,
        }
    }

    /// Classifies an optional HTTP status code.
    pub fn status_code(status_code: Option<u16>) -> (kind: Self)
        ensures
            kind == Self::classify(status_code),
    {
        match status_code {
            Some(404) => Self::NotFound,
            Some(500) => Self::InternalServerError,
            Some(400) => Self::BadRequest,
            _ => Self::Unexpected,
        }
    }
}

impl Error {
    /// The kind agrees with the code under the classification table.
    pub open spec fn consistent(self) -> bool {
        self.error == Errored::classify(self.code)
    }

    /// The error that a response with this status and body is turned into.
    pub open spec fn of_body(status: u16, body: Seq<char>) -> ErrorModel {
        ErrorModel {
            code: Some(status),
            api_error: BrasilAPIError::of_text(body),
            message: body,
            error: Errored::classify(Some(status)),
        }
    }

    /// The error that a transport failure is turned into.
    pub open spec fn of_failure(status: Option<u16>, description: Seq<char>) -> ErrorModel {
        ErrorModel {
            code: status,
            api_error: BrasilAPIError::of_text(description),
            message: description,
            error: Errored::classify(status),
        }
    }

    /// An error made locally, without an error body.
    pub fn new(message: String, error: Errored, code: Option<u16>) -> (made: Self)
        ensures
            made.message == message,
            made.error == error,
            made.code == code,
            made.api_error is None,
            made.consistent() <==> error == Errored::classify(code),
    {
        Self { api_error: None, code, message, error }
    }

    /// Normalises a transport failure: the code is the failure's status, the
    /// kind follows from it, the message is the failure's description, and
    /// the error body is whatever the description holds of one.
    pub fn from_error(error: TransportFailure) -> (made: Self)
        ensures
            made@ == Self::of_failure(error.status, error.description@),
            made.message == error.description,
            made.consistent(),
    {
        let status = error.status;
        let api_error = BrasilAPIError::parse(error.description.as_str());
        let kind = Errored::status_code(status);
        Self { code: status, message: error.description, api_error, error: kind }
    }

    /// Normalises a response whose status is not a success, from the text of
    /// its body: the text becomes the message, word for word.
    pub fn from_body(status: u16, body: String) -> (made: Self)
        ensures
            made@ == Self::of_body(status, body@),
            made.message == body,
            made.consistent(),
    {
        let api_error = BrasilAPIError::parse(body.as_str());
        let kind = Errored::status_code(Some(status));
        Self { code: Some(status), message: body, api_error, error: kind }
    }

    /// Normalises a response. One with status 200 comes back as it went in,
    /// body and all. Any other is used up: its body becomes the message of
    /// the error that is returned.
    pub fn from_response(response: Response) -> (outcome: Result<Response, Self>)
        ensures
            Response::succeeded(response.status) ==> outcome == Ok::<Response, Self>(response),
            !Response::succeeded(response.status) ==> outcome is Err
                && outcome->Err_0@ == Self::of_body(response.status, response.body@)
                && outcome->Err_0.message == response.body
                && outcome->Err_0.consistent(),
    {
        if Response::is_success(response.status) {
            Ok(response)
        } else {
            Err(Self::from_body(response.status, response.body))
        }
    }
}

/// The outcome of a request after normalisation, as a function of the raw
/// outcome.
pub open spec fn normalized(outcome: Result<Response, TransportFailure>) -> Result<
    Response,
    ErrorModel,
> {
    match outcome {
        Ok(response) => if Response::succeeded(response.status) {
            Ok(response)
        } else {
            Err(Error::of_body(response.status, response.body@))
        },
        Err(failure) => Err(Error::of_failure(failure.status, failure.description@)),
    }
}

/// The view of a normalised outcome.
pub open spec fn outcome_view<T>(outcome: Result<T, Error>) -> Result<T, ErrorModel> {
    match outcome {
        Ok(response) => Ok(response),
        Err(error) => Err(error@),
    }
}

/// Routes the raw outcome of a request through the normaliser: a response
/// goes through [`Error::from_response`], a transport failure through
/// [`Error::from_error`].
pub fn normalize(outcome: Result<Response, TransportFailure>) -> (normal: Result<Response, Error>)
    ensures
        outcome_view(normal) == normalized(outcome),
        normal matches Err(error) ==> error.consistent(),
{
    match outcome {
        Ok(response) => Error::from_response(response),
        Err(failure) => Err(Error::from_error(failure)),
    }
}

/// What a normalised outcome says about whether the resource exists: a
/// success says that it does, an error of kind `NotFound` that it does not,
/// and any other error says nothing and stays an error.
pub open spec fn presence_of<T>(outcome: Result<T, ErrorModel>) -> Result<bool, ErrorModel> {
    match outcome {
        Ok(_) => Ok(true),
        Err(error) => if error.error == Errored::NotFound {
            Ok(false)
        } else {
            Err(error)
        },
    }
}

/// The view of an answer about existence.
pub open spec fn presence_view(answer: Result<bool, Error>) -> Result<bool, ErrorModel> {
    match answer {
        Ok(present) => Ok(present),
        Err(error) => Err(error@),
    }
}

/// Collapses a normalised outcome into an answer about existence. What a
/// success carries is not looked at. An error of a kind other than
/// `NotFound` is handed on as it came.
pub fn presence<T>(outcome: Result<T, Error>) -> (answer: Result<bool, Error>)
    ensures
        presence_view(answer) == presence_of(outcome_view(outcome)),
        answer matches Err(error) ==> outcome == Err::<T, Error>(error),
{
    match outcome {
        Ok(_) => Ok(true),
        Err(error) => match error.error {
            Errored::NotFound => Ok(false),
            _ => Err(error),
        },
    }
}

/// Classifying is a function of the status code: two classifications of one
/// code give one kind.
pub proof fn lemma_classification_is_deterministic(
    status_code: Option<u16>,
    first: Errored,
    second: Errored,
)
    requires
        first == Errored::classify(status_code),
        second == Errored::classify(status_code),
    ensures
        first == second,
{
}

/// The classification table read backwards: each of the three named kinds
/// comes from exactly one status code.
pub proof fn lemma_classification_table(status_code: Option<u16>)
    ensures
        Errored::classify(status_code) == Errored::NotFound <==> status_code == Some(404u16),
        Errored::classify(status_code) == Errored::InternalServerError <==> status_code == Some(
            500u16,
        ),
        Errored::classify(status_code) == Errored::BadRequest <==> status_code == Some(400u16),
        Errored::classify(status_code) == Errored::Unexpected <==> status_code != Some(404u16)
            && status_code != Some(500u16) && status_code != Some(400u16),
{
}

/// In an error whose kind agrees with its code, the kind is `NotFound`
/// exactly where the code is 404: the existence check may go by either.
pub proof fn lemma_not_found_is_404(error: Error)
    requires
        error.consistent(),
    ensures
        error.error == Errored::NotFound <==> error.code == Some(404u16),
{
}

/// The members of the JSON object that an error body is written as: the
/// message under `message`, the type under `type`, and the name, where there
/// is one, under `name`.
pub open spec fn members_of(payload: BrasilAPIErrorModel) -> Map<Seq<char>, MemberModel> {
    let required = Map::<Seq<char>, MemberModel>::empty().insert(
        "message"@,
        MemberModel::Text(payload.message),
    ).insert("type"@, MemberModel::Text(payload.kind));
    match payload.name {
        Some(name) => required.insert("name"@, MemberModel::Text(name)),
        None => required,
    }
}

/// Round trip: every error body is read back from the members that it is
/// written as.
pub proof fn lemma_payload_round_trip(payload: BrasilAPIErrorModel)
    ensures
        BrasilAPIError::of_document(members_of(payload)) == Some(payload),
{
    reveal_strlit("message");
    reveal_strlit("name");
    reveal_strlit("type");
    assert("message"@ != "name"@) by {
        assert("message"@.len() != "name"@.len());
    }
    assert("message"@ != "type"@) by {
        assert("message"@.len() != "type"@.len());
    }
    assert("name"@ != "type"@) by {
        assert("name"@[0] != "type"@[0]);
    }
}

/// Reading an error body looks at three members only: two documents that
/// agree under `message`, `name` and `type` hold the same error body,
/// whatever else they hold.
pub proof fn lemma_payload_reads_three_members(
    first: Map<Seq<char>, MemberModel>,
    second: Map<Seq<char>, MemberModel>,
)
    requires
        member_at(first, "message"@) == member_at(second, "message"@),
        member_at(first, "name"@) == member_at(second, "name"@),
        member_at(first, "type"@) == member_at(second, "type"@),
    ensures
        BrasilAPIError::of_document(first) == BrasilAPIError::of_document(second),
{
}

/// A text that is not JSON holds no error body, and neither does a document
/// without a string under `message` or under `type`, or with something other
/// than a string or `null` under `name`.
pub proof fn lemma_payload_absent(text: Seq<char>)
    ensures
        json_members(text) is None ==> BrasilAPIError::of_text(text) is None,
        json_members(text) matches Some(members) ==> (BrasilAPIError::of_text(text) is Some <==> {
            &&& member_at(members, "message"@) matches Some(MemberModel::Text(_))
            &&& member_at(members, "type"@) matches Some(MemberModel::Text(_))
            &&& member_at(members, "name"@) != Some(MemberModel::Other)
        }),
{
}

/// Whether or not its body holds an error body, a failed response becomes an
/// error that carries the status, the kind that the status stands for, and
/// the body as its message.
pub proof fn lemma_error_stands_without_payload(status: u16, body: Seq<char>)
    ensures
        Error::of_body(status, body).code == Some(status),
        Error::of_body(status, body).error == Errored::classify(Some(status)),
        Error::of_body(status, body).message == body,
        json_members(body) is None ==> Error::of_body(status, body).api_error is None,
{
}

/// The existence check after normalisation: a response with status 200 says
/// that the resource exists, one with status 404 that it does not, and one
/// with any other status stays the error that normalisation made of it. A
/// status of 500 in particular gives an error of kind `InternalServerError`.
pub proof fn lemma_presence_of_response(response: Response)
    ensures
        response.status == 200 ==> presence_of(normalized(Ok(response))) == Ok::<bool, ErrorModel>(
            true,
        ),
        response.status == 404 ==> presence_of(normalized(Ok(response))) == Ok::<bool, ErrorModel>(
            false,
        ),
        response.status != 200 && response.status != 404 ==> presence_of(normalized(Ok(response)))
            == Err::<bool, ErrorModel>(Error::of_body(response.status, response.body@)),
        response.status == 500 ==> Error::of_body(response.status, response.body@).error
            == Errored::InternalServerError,
{
}

/// The existence check after a transport failure: the failure reads as
/// absence where it carries the status 404, and stays an error otherwise.
pub proof fn lemma_presence_of_failure(failure: TransportFailure)
    ensures
        failure.status == Some(404u16) ==> presence_of(normalized(Err(failure))) == Ok::<
            bool,
            ErrorModel,
        >(false),
        failure.status != Some(404u16) ==> presence_of(normalized(Err(failure))) == Err::<
            bool,
            ErrorModel,
        >(Error::of_failure(failure.status, failure.description@)),
{
}

} // verus!
