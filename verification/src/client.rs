//! The client: what it sends for a comment, and what it makes of the reply.
//!
//! The client does not talk to the network itself. `request` says what is to
//! be posted, the caller posts it, and `interpret` turns what came back into
//! scores. `analyze` is the two in one, for a caller that has the reply.

use vstd::prelude::*;
use vstd::string::StringExecFns;
use crate::json::{document_of, json_parse, json_text, message, message_of, parse};
use crate::model::{Failure, PerspectiveError, Response, Scores, ValueType};
use crate::request::{
    request_body, request_document, CONTENT_TYPE, ENDPOINT, KEY_PARAMETER, METHOD,
};
use crate::response::{decode, decoded, lemma_message_not_empty};

verus! {

/// What stands before the message of a reply that is not JSON.
pub const INVALID_JSON: &'static str = "invalid JSON: ";

/// An HTTP request, ready to be posted.
#[derive(Debug, PartialEq, Eq)]
pub struct Request {
    /// The HTTP method.
    pub method: String,
    /// The address to send to, without a query.
    pub endpoint: String,
    /// The one query parameter, name and value.
    pub query: (String, String),
    /// The value of the `Content-Type` header.
    pub content_type: String,
    /// The body.
    pub body: String,
    /// How many seconds to wait for the answer, where the client has a limit.
    pub timeout_seconds: Option<u64>,
}

/// A `Request` as a mathematical value.
pub struct RequestView {
    pub method: Seq<char>,
    pub endpoint: Seq<char>,
    pub query: (Seq<char>, Seq<char>),
    pub content_type: Seq<char>,
    pub body: Seq<char>,
    pub timeout_seconds: Option<u64>,
}

impl View for Request {
    type V = RequestView;

    open spec fn view(&self) -> RequestView {
        RequestView {
            method: self.method@,
            endpoint: self.endpoint@,
            query: (self.query.0@, self.query.1@),
            content_type: self.content_type@,
            body: self.body@,
            timeout_seconds: self.timeout_seconds,
        }
    }
}

/// What came of posting a request.
#[derive(Debug, PartialEq, Eq)]
pub enum Reply {
    /// No answer arrived: the connection failed, timed out or broke off.
    Failed,
    /// An answer arrived, with these bytes as its body. Its status does not
    /// count: the service's report of an error is a body like any other, and
    /// one that gives no scores.
    Body(Vec<u8>),
}

/// A client of the comment-analysis service, made once for an API key.
#[derive(Debug)]
pub struct PerspectiveClient {
    key: String,
    do_not_store: bool,
    timeout_seconds: Option<u64>,
}

/// What a client is set up with.
pub struct Settings {
    /// The API key.
    pub key: Seq<char>,
    /// Whether the service is asked not to keep the comments.
    pub do_not_store: bool,
    /// How many seconds a request may take, if there is a limit.
    pub timeout_seconds: Option<u64>,
}

/// The request of a client set up with `settings` for the attributes `types`
/// of the comment `text`: a JSON body posted to the one endpoint, with the
/// API key as the query parameter `key`. An empty text is refused, then an
/// empty list of attributes.
pub open spec fn requested(settings: Settings, text: Seq<char>, types: Seq<ValueType>) -> Result<
    RequestView,
    Failure,
> {
    if text.len() == 0 {
        Err(Failure::EmptyInput)
    } else if types.len() == 0 {
        Err(Failure::EmptyTypes)
    } else {
        Ok(
            RequestView {
                method: METHOD@,
                endpoint: ENDPOINT@,
                query: (KEY_PARAMETER@, settings.key),
                content_type: CONTENT_TYPE@,
                body: json_text(request_document(text, types, settings.do_not_store)),
                timeout_seconds: settings.timeout_seconds,
            },
        )
    }
}

/// What is made of a reply: the scores that its body gives, or the failure.
pub open spec fn interpreted(reply: Reply) -> Result<Map<ValueType, Scores>, Failure> {
    match reply {
        Reply::Failed => Err(Failure::RequestFailed),
        Reply::Body(body) => match json_parse(body@) {
            Err(message) => Err(Failure::ParsingFailed(INVALID_JSON@ + message)),
            Ok(answer) => match decoded(answer) {
                Ok(scores) => Ok(scores),
                Err(defect) => Err(Failure::ParsingFailed(defect.message_view())),
            },
        },
    }
}

/// What an analysis comes to: an empty text is refused, then an empty list
/// of attributes, and only then does the reply count.
pub open spec fn analyzed(text: Seq<char>, types: Seq<ValueType>, reply: Reply) -> Result<
    Map<ValueType, Scores>,
    Failure,
> {
    if text.len() == 0 {
        Err(Failure::EmptyInput)
    } else if types.len() == 0 {
        Err(Failure::EmptyTypes)
    } else {
        interpreted(reply)
    }
}

/// Whether `result` is `expected`, the scores and the diagnostic taken as
/// mathematical values.
pub open spec fn agrees(
    result: Result<Response, PerspectiveError>,
    expected: Result<Map<ValueType, Scores>, Failure>,
) -> bool {
    match result {
        Ok(response) => expected == Ok::<Map<ValueType, Scores>, Failure>(response@),
        Err(error) => expected == Err::<Map<ValueType, Scores>, Failure>(error@),
    }
}

/// Makes the result of reading a reply's body out of what `serde_json` made
/// of it: the scores of the document read, or a diagnostic that says what is
/// wrong with it, or that it is no JSON and why.
pub fn read_answer(parsed: Result<serde_json::Value, serde_json::Error>) -> (r: Result<
    Response,
    PerspectiveError,
>)
    ensures
        match parsed {
            Ok(answer) => match decoded(document_of(answer)) {
                Ok(scores) => r matches Ok(response) && response@ == scores,
                Err(defect) => r matches Err(error) && error@ == Failure::ParsingFailed(
                    defect.message_view(),
                ),
            },
            Err(refusal) => r matches Err(error) && error@ == Failure::ParsingFailed(
                INVALID_JSON@ + message_of(refusal),
            ),
        },
{
    match parsed {
        Ok(answer) => match decode(&answer) {
            Ok(response) => Ok(response),
            Err(defect) => Err(PerspectiveError::ParsingFailed(String::from_str(defect.message()))),
        },
        Err(refusal) => {
            let reason = message(&refusal);
            Err(
                PerspectiveError::ParsingFailed(
                    String::from_str(INVALID_JSON).concat(reason.as_str()),
                ),
            )
        },
    }
}

/// A diagnostic is never empty: where a reply is no answer of the expected
/// shape, the failure says something about it.
pub proof fn lemma_diagnostic_not_empty(reply: Reply)
    ensures
        interpreted(reply) matches Err(Failure::ParsingFailed(diagnostic)) ==> diagnostic.len()
            > 0,
{
    reveal_strlit("invalid JSON: ");
    if let Reply::Body(body) = reply {
        if let Ok(answer) = json_parse(body@) {
            if let Err(defect) = decoded(answer) {
                lemma_message_not_empty(defect);
            }
        }
    }
}

impl PerspectiveClient {
    /// What the client is set up with.
    pub closed spec fn settings(&self) -> Settings {
        Settings {
            key: self.key@,
            do_not_store: self.do_not_store,
            timeout_seconds: self.timeout_seconds,
        }
    }

    /// A client for the API key `api_key`, without a limit on the time that a
    /// request may take.
    pub fn new(api_key: &str, do_not_store: bool) -> (client: PerspectiveClient)
        ensures
            client.settings() == (Settings {
                key: api_key@,
                do_not_store,
                timeout_seconds: None,
            }),
    {
        PerspectiveClient { key: String::from_str(api_key), do_not_store, timeout_seconds: None }
    }

    /// The same client, with `seconds` as the time that a request may take.
    pub fn with_timeout(self, seconds: u64) -> (client: PerspectiveClient)
        ensures
            client.settings() == (Settings { timeout_seconds: Some(seconds), ..self.settings() }),
    {
        PerspectiveClient {
            key: self.key,
            do_not_store: self.do_not_store,
            timeout_seconds: Some(seconds),
        }
    }

    /// The API key that the client was made for.
    pub fn key(&self) -> (key: &str)
        ensures
            key@ == self.settings().key,
    {
        self.key.as_str()
    }

    /// Whether the client asks the service not to keep the comments.
    pub fn do_not_store(&self) -> (flag: bool)
        ensures
            flag == self.settings().do_not_store,
    {
        self.do_not_store
    }

    /// How many seconds a request may take, if there is a limit.
    pub fn timeout_seconds(&self) -> (limit: Option<u64>)
        ensures
            limit == self.settings().timeout_seconds,
    {
        self.timeout_seconds
    }

    /// The request that asks for the attributes `types` of the comment
    /// `text`. An empty text is refused, then an empty list of attributes; no
    /// request is made for either.
    pub fn request(&self, text: &str, types: &Vec<ValueType>) -> (r: Result<
        Request,
        PerspectiveError,
    >)
        ensures
            match r {
                Ok(request) => requested(self.settings(), text@, types@) == Ok::<
                    RequestView,
                    Failure,
                >(request@),
                Err(error) => requested(self.settings(), text@, types@) == Err::<
                    RequestView,
                    Failure,
                >(error@),
            },
            text@.len() == 0 ==> r is Err && r->Err_0@ == Failure::EmptyInput,
            text@.len() > 0 && types@.len() == 0 ==> r is Err && r->Err_0@ == Failure::EmptyTypes,
            text@.len() > 0 && types@.len() > 0 ==> r is Ok,
    {
        if text.is_empty() {
            return Err(PerspectiveError::EmptyInput);
        }
        if types.len() == 0 {
            return Err(PerspectiveError::EmptyTypes);
        }
        Ok(
            Request {
                method: String::from_str(METHOD),
                endpoint: String::from_str(ENDPOINT),
                query: (String::from_str(KEY_PARAMETER), self.key.clone()),
                content_type: String::from_str(CONTENT_TYPE),
                body: request_body(text, types, self.do_not_store),
                timeout_seconds: self.timeout_seconds,
            },
        )
    }

    /// What a reply comes to: `RequestFailed` where none arrived, the scores
    /// where its body is an answer of the expected shape, and `ParsingFailed`
    /// with a diagnostic, which is never empty, otherwise.
    pub fn interpret(reply: &Reply) -> (r: Result<Response, PerspectiveError>)
        ensures
            agrees(r, interpreted(*reply)),
            *reply is Failed ==> r is Err && r->Err_0@ == Failure::RequestFailed,
            r is Err && r->Err_0 is ParsingFailed ==> r->Err_0->ParsingFailed_0@.len() > 0,
    {
        proof {
            lemma_diagnostic_not_empty(*reply);
        }
        match reply {
            Reply::Failed => Err(PerspectiveError::RequestFailed),
            Reply::Body(body) => read_answer(parse(body.as_slice())),
        }
    }

    /// The analysis of the comment `text` for the attributes `types`, given
    /// the reply to its request. An empty text is refused, then an empty list
    /// of attributes, whatever the reply; otherwise the result is what the
    /// reply comes to.
    pub fn analyze(&self, text: &str, types: Vec<ValueType>, reply: &Reply) -> (r: Result<
        Response,
        PerspectiveError,
    >)
        ensures
            agrees(r, analyzed(text@, types@, *reply)),
            text@.len() == 0 ==> r is Err && r->Err_0@ == Failure::EmptyInput,
            text@.len() > 0 && types@.len() == 0 ==> r is Err && r->Err_0@ == Failure::EmptyTypes,
            text@.len() > 0 && types@.len() > 0 && *reply is Failed ==> r is Err && r->Err_0@
                == Failure::RequestFailed,
            r is Err && r->Err_0 is ParsingFailed ==> r->Err_0->ParsingFailed_0@.len() > 0,
    {
        if text.is_empty() {
            return Err(PerspectiveError::EmptyInput);
        }
        if types.len() == 0 {
            return Err(PerspectiveError::EmptyTypes);
        }
        PerspectiveClient::interpret(reply)
    }
}

} // verus!
