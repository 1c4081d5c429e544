//! The error envelope of the service and the client's error kinds.
use crate::json::{opt_text_field, read_opt_text, read_text, text_field, member_of, Json, JsonView};
use crate::param::opt_text_view;
use vstd::prelude::*;
use vstd::string::StringExecFns;

verus! {

/// The error record that the service sends on a failed request.
#[derive(Debug, Clone)]
pub struct APIErrorData {
    pub message: String,
    pub kind: String,
    pub param: Option<String>,
    pub code: Option<String>,
}

/// The envelope around the error record: `{"error": {...}}`.
#[derive(Debug, Clone)]
pub struct APIError {
    pub error: APIErrorData,
}

/// The text of an error message: the status, the server's message and the
/// server's error type, in that order.
pub open spec fn error_msg_text(status: Seq<char>, message: Seq<char>, kind: Seq<char>) -> Seq<
    char,
> {
    seq!['['] + status + seq![']', ' ', '|', ' ', '['] + message + seq![']', ' ', '\n', ' ', '[']
        + kind + seq![']']
}

/// Builds the message of a classified error from the status text and the
/// server's error record.
pub fn construct_error_msg(status_code: String, err_data: APIErrorData) -> (msg: String)
    ensures
        msg@ == error_msg_text(status_code@, err_data.message@, err_data.kind@),
{
    proof {
        reveal_strlit("[");
        reveal_strlit("] | [");
        reveal_strlit("] \n [");
        reveal_strlit("]");
    }
    let mut msg = String::from_str("[");
    msg.append(status_code.as_str());
    msg.append("] | [");
    msg.append(err_data.message.as_str());
    msg.append("] \n [");
    msg.append(err_data.kind.as_str());
    msg.append("]");
    assert(msg@ =~= error_msg_text(status_code@, err_data.message@, err_data.kind@));
    msg
}


impl vstd::std_specs::convert::FromSpecImpl<APIError> for APIErrorData {
    open spec fn obeys_from_spec() -> bool {
        true
    }

    open spec fn from_spec(value: APIError) -> APIErrorData {
        value.error
    }
}

impl From<APIError> for APIErrorData {
    /// Takes the error record out of its envelope. Each field keeps its own
    /// value: `param` stays `param` and `code` stays `code`.
    fn from(value: APIError) -> (data: APIErrorData) {
        value.error
    }
}

/// The kinds of error that a client operation can return. Each of the first
/// five carries the message built by [`construct_error_msg`]; the next two
/// carry the text of the failure.
#[derive(Debug, Clone)]
pub enum OpenAIError {
    /// Status 404: the resource or the endpoint was not found.
    InternalAPIError(String),
    /// Status 401.
    AuthenticationError(String),
    /// Status 429.
    RateLimitError(String),
    /// Status 500.
    ServerError(String),
    /// Any other status that is not a success.
    OtherError(String),
    /// The request could not be sent, or the reply could not be read.
    RequestError(String),
    /// A body did not match the JSON schema that was expected.
    ParseError(String),
    UnknownError,
}

pub type OpenAIResult<T> = Result<T, OpenAIError>;

/// The kind that a status other than 200 is classified as.
#[derive(Debug, Clone, Copy, PartialEq, Eq, Structural)]
pub enum ErrorKind {
    InternalAPI,
    Authentication,
    RateLimit,
    Server,
    Other,
}

/// The classification policy: 401, 404, 429 and 500 each have a kind of
/// their own, every other status is `Other`.
pub open spec fn kind_of_status(status: int) -> ErrorKind {
    if status == 404 {
        ErrorKind::InternalAPI
    } else if status == 401 {
        ErrorKind::Authentication
    } else if status == 429 {
        ErrorKind::RateLimit
    } else if status == 500 {
        ErrorKind::Server
    } else {
        ErrorKind::Other
    }
}

/// Classifies the status of a failed request.
pub fn classify_status(status: u16) -> (kind: ErrorKind)
    ensures
        kind == kind_of_status(status as int),
{
    if status == 404 {
        ErrorKind::InternalAPI
    } else if status == 401 {
        ErrorKind::Authentication
    } else if status == 429 {
        ErrorKind::RateLimit
    } else if status == 500 {
        ErrorKind::Server
    } else {
        ErrorKind::Other
    }
}

/// The classified error of the given kind with the given message.
pub open spec fn classified(kind: ErrorKind, msg: Seq<char>, e: OpenAIError) -> bool {
    match kind {
        ErrorKind::InternalAPI => e matches OpenAIError::InternalAPIError(m) && m@ == msg,
        ErrorKind::Authentication => e matches OpenAIError::AuthenticationError(m) && m@ == msg,
        ErrorKind::RateLimit => e matches OpenAIError::RateLimitError(m) && m@ == msg,
        ErrorKind::Server => e matches OpenAIError::ServerError(m) && m@ == msg,
        ErrorKind::Other => e matches OpenAIError::OtherError(m) && m@ == msg,
    }
}

impl OpenAIError {
    /// Wraps a message in the error of the given kind.
    pub fn of_kind(kind: ErrorKind, msg: String) -> (e: OpenAIError)
        ensures
            classified(kind, msg@, e),
    {
        match kind {
            ErrorKind::InternalAPI => OpenAIError::InternalAPIError(msg),
            ErrorKind::Authentication => OpenAIError::AuthenticationError(msg),
            ErrorKind::RateLimit => OpenAIError::RateLimitError(msg),
            ErrorKind::Server => OpenAIError::ServerError(msg),
            ErrorKind::Other => OpenAIError::OtherError(msg),
        }
    }
}

pub struct APIErrorDataView {
    pub message: Seq<char>,
    pub kind: Seq<char>,
    pub param: Option<Seq<char>>,
    pub code: Option<Seq<char>>,
}

impl View for APIErrorData {
    type V = APIErrorDataView;

    open spec fn view(&self) -> APIErrorDataView {
        APIErrorDataView {
            message: self.message@,
            kind: self.kind@,
            param: opt_text_view(self.param),
            code: opt_text_view(self.code),
        }
    }
}

/// The error record that a JSON object holds. The server's error type
/// stands under the key `type`; `param` and `code` may each be missing or
/// `null`, independently of one another.
pub open spec fn decode_api_error_data(tree: JsonView) -> Option<APIErrorDataView> {
    let message = text_field(tree, "message"@);
    let kind = text_field(tree, "type"@);
    let param = opt_text_field(tree, "param"@);
    let code = opt_text_field(tree, "code"@);
    if message is Some && kind is Some && param is Some && code is Some {
        Some(
            APIErrorDataView {
                message: message->0,
                kind: kind->0,
                param: param->0,
                code: code->0,
            },
        )
    } else {
        None
    }
}

/// The error record in the envelope that a JSON object holds.
pub open spec fn decode_api_error(tree: JsonView) -> Option<APIErrorDataView> {
    match member_of(tree, "error"@) {
        Some(inner) => decode_api_error_data(inner),
        None => None,
    }
}

impl APIErrorData {
    /// Reads an error record from a JSON object.
    pub fn from_json(json: &Json) -> (r: Option<APIErrorData>)
        ensures
            match decode_api_error_data(json@) {
                Some(v) => r matches Some(d) && d@ == v,
                None => r is None,
            },
    {
        let message = read_text(json, "message")?;
        let kind = read_text(json, "type")?;
        let param = read_opt_text(json, "param")?;
        let code = read_opt_text(json, "code")?;
        Some(APIErrorData { message, kind, param, code })
    }
}

impl APIError {
    /// Reads an error envelope from a JSON object.
    pub fn from_json(json: &Json) -> (r: Option<APIError>)
        ensures
            match decode_api_error(json@) {
                Some(v) => r matches Some(e) && e.error@ == v,
                None => r is None,
            },
    {
        match json.get("error") {
            Some(inner) => {
                let error = APIErrorData::from_json(inner)?;
                Some(APIError { error })
            },
            None => None,
        }
    }
}

/// The text that describes an error: what went wrong, then the message.
pub open spec fn error_text(e: OpenAIError) -> Seq<char> {
    match e {
        OpenAIError::InternalAPIError(m) => "Internal API Error: "@ + m@,
        OpenAIError::AuthenticationError(m) => "Error: "@ + m@,
        OpenAIError::RateLimitError(m) => "Rate Limit Error: "@ + m@,
        OpenAIError::ServerError(m) => "Server Error: "@ + m@,
        OpenAIError::OtherError(m) => "Other Error: "@ + m@,
        OpenAIError::RequestError(m) => "Unable to process request: "@ + m@,
        OpenAIError::ParseError(m) => "Unable to parse response into valid JSON: "@ + m@,
        OpenAIError::UnknownError => "Unknown Error happened"@,
    }
}

impl OpenAIError {
    /// The text that describes the error.
    pub fn to_text(&self) -> (text: String)
        ensures
            text@ == error_text(*self),
    {
        match self {
            OpenAIError::InternalAPIError(m) => String::from_str("Internal API Error: ").concat(
                m.as_str(),
            ),
            OpenAIError::AuthenticationError(m) => String::from_str("Error: ").concat(m.as_str()),
            OpenAIError::RateLimitError(m) => String::from_str("Rate Limit Error: ").concat(
                m.as_str(),
            ),
            OpenAIError::ServerError(m) => String::from_str("Server Error: ").concat(m.as_str()),
            OpenAIError::OtherError(m) => String::from_str("Other Error: ").concat(m.as_str()),
            OpenAIError::RequestError(m) => String::from_str("Unable to process request: ").concat(
                m.as_str(),
            ),
            OpenAIError::ParseError(m) => String::from_str(
                "Unable to parse response into valid JSON: ",
            ).concat(m.as_str()),
            OpenAIError::UnknownError => String::from_str("Unknown Error happened"),
        }
    }
}

/// The classification of the statuses: 401 is an authentication error, 404
/// an internal API error, 429 a rate limit error, 500 a server error, and
/// every other status an error of the kind `Other`.
pub proof fn lemma_classification(status: int)
    ensures
        kind_of_status(401) == ErrorKind::Authentication,
        kind_of_status(404) == ErrorKind::InternalAPI,
        kind_of_status(429) == ErrorKind::RateLimit,
        kind_of_status(500) == ErrorKind::Server,
        status != 401 && status != 404 && status != 429 && status != 500 ==> kind_of_status(status)
            == ErrorKind::Other,
{
}

/// Taking the record out of its envelope keeps `param` and `code` apart:
/// each has the value that it had in the envelope, so the two are equal
/// after the mapping only if they were equal before.
pub proof fn lemma_param_and_code_kept(value: APIError)
    ensures
        <APIErrorData as vstd::std_specs::convert::FromSpec<APIError>>::from_spec(value).param
            == value.error.param,
        <APIErrorData as vstd::std_specs::convert::FromSpec<APIError>>::from_spec(value).code
            == value.error.code,
{
}

} // verus!
