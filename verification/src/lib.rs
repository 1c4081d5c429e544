//! A typed client core for a remote text-generation HTTP API.
//!
//! The crate holds the request and response rules of the client: which
//! request each operation sends, how a reply is turned into a typed value or
//! a classified error, and how the parameter and response types map to the
//! flat JSON objects of the wire format. Sending the request is left to the
//! caller.
use crate::construct::{
    decode_completion, decode_model, decode_model_list, Completion, Model, ModelList,
};
use crate::error::{
    classified, classify_status, construct_error_msg, decode_api_error, error_msg_text,
    kind_of_status, APIError, APIErrorData, OpenAIError, OpenAIResult,
};
use crate::json::{parse_failure, parsed, printed, Json, JsonView};
use crate::param::{completion_params_json, CompletionParams};
use crate::status::{check_header_value, is_header_value, status_text, StatusCode};
use vstd::prelude::*;
use vstd::string::StringExecFns;

pub mod construct;
pub mod error;
pub mod json;
pub mod number;
pub mod param;
pub mod status;

verus! {

/// The credential and the optional organization that a client is made with.
#[derive(Debug, Clone)]
pub struct Config {
    pub openai_secret_key: String,
    pub openai_org: Option<String>,
}

impl Default for Config {
    fn default() -> (c: Config)
        ensures
            c.openai_secret_key@ == Seq::<char>::empty(),
            c.openai_org is None,
    {
        Config { openai_secret_key: String::new(), openai_org: None }
    }
}

/// One header of a request.
#[derive(Debug, Clone)]
pub struct Header {
    pub name: String,
    pub value: String,
}

impl View for Header {
    type V = (Seq<char>, Seq<char>);

    open spec fn view(&self) -> (Seq<char>, Seq<char>) {
        (self.name@, self.value@)
    }
}

/// The value of the `Authorization` header for a secret key.
pub open spec fn bearer_text(key: Seq<char>) -> Seq<char> {
    "Bearer "@ + key
}

/// The headers that every request of a client carries: the credential, the
/// content type and, only if the configuration names an organization, the
/// organization.
pub open spec fn default_headers_of(config: Config) -> Seq<(Seq<char>, Seq<char>)> {
    let fixed = seq![
        ("Authorization"@, bearer_text(config.openai_secret_key@)),
        ("Content-Type"@, "application/json"@),
    ];
    match config.openai_org {
        Some(org) => fixed.push(("OpenAI-Organization"@, org@)),
        None => fixed,
    }
}

impl Config {
    /// A client can be made with the configuration: the credential and the
    /// organization are fit to be sent as header values.
    pub open spec fn usable(&self) -> bool {
        &&& is_header_value(bearer_text(self.openai_secret_key@))
        &&& self.openai_org matches Some(org) ==> is_header_value(org@)
    }

    /// Whether a client can be made with the configuration.
    pub fn is_usable(&self) -> (ok: bool)
        ensures
            ok == self.usable(),
    {
        let mut bearer = String::from_str("Bearer ");
        bearer.append(self.openai_secret_key.as_str());
        if !check_header_value(bearer.as_str()) {
            return false;
        }
        match &self.openai_org {
            Some(org) => check_header_value(org.as_str()),
            None => true,
        }
    }
}

/// The method of a request.
#[derive(Debug, Clone, Copy, PartialEq, Eq, Structural)]
pub enum Method {
    Get,
    Post,
}

/// A request that an operation of the client asks to be sent, with the
/// client's default headers.
#[derive(Debug, Clone)]
pub struct Request {
    pub method: Method,
    pub url: String,
    pub body: Option<String>,
}

/// What came of sending a request.
#[derive(Debug, Clone)]
pub enum Exchange {
    /// The service answered.
    Answered { status: StatusCode, body: String },
    /// The request could not be sent, or the answer could not be read.
    Failed { reason: String },
}

/// The address of the list of models.
pub open spec fn models_url() -> Seq<char> {
    "https://api.openai.com/v1/models"@
}

/// The address of one model: the address of the list, a slash and the
/// model's identifier as it is.
pub open spec fn model_url(id: Seq<char>) -> Seq<char> {
    "https://api.openai.com/v1/models/"@ + id
}

/// The address of the completions.
pub open spec fn completions_url() -> Seq<char> {
    "https://api.openai.com/v1/completions"@
}

/// The error for a body that is no JSON: it carries the parser's reason.
pub open spec fn syntax_error(body: Seq<char>, e: OpenAIError) -> bool {
    e matches OpenAIError::ParseError(m) && m@ == parse_failure(body)
}

/// The error for a body that is JSON but not of the expected form.
pub open spec fn schema_error(e: OpenAIError) -> bool {
    e matches OpenAIError::ParseError(m) && m@ == "the body does not match the expected schema"@
}

/// The error that a status other than 200 and the JSON of the body give:
/// the classified error with the message built from the envelope, or a
/// parse error where the body is no error envelope.
pub open spec fn error_of(code: u16, tree: JsonView, e: OpenAIError) -> bool {
    match decode_api_error(tree) {
        Some(data) => classified(
            kind_of_status(code as int),
            error_msg_text(status_text(code), data.message, data.kind),
            e,
        ),
        None => schema_error(e),
    }
}

/// The JSON of the body of an exchange that was answered with status 200.
pub open spec fn exchange_tree(exchange: Exchange) -> Option<JsonView> {
    match exchange {
        Exchange::Answered { status, body } => if status.value() == 200 {
            parsed(body@)
        } else {
            None
        },
        Exchange::Failed { reason } => None,
    }
}

/// The error of an exchange that has no JSON of a success to offer.
pub open spec fn exchange_error(exchange: Exchange, e: OpenAIError) -> bool {
    match exchange {
        Exchange::Failed { reason } => e matches OpenAIError::RequestError(m) && m@ == reason@,
        Exchange::Answered { status, body } => match parsed(body@) {
            Some(tree) => status.value() != 200 && error_of(status.value(), tree, e),
            None => syntax_error(body@, e),
        },
    }
}

/// The error for a body that is JSON but not of the expected form.
pub fn schema_mismatch() -> (e: OpenAIError)
    ensures
        schema_error(e),
{
    OpenAIError::ParseError(String::from_str("the body does not match the expected schema"))
}

/// The error for a status other than 200, given the JSON of the body.
pub fn error_from_envelope(status: StatusCode, envelope: &Json) -> (e: OpenAIError)
    ensures
        error_of(status.value(), envelope@, e),
{
    match APIError::from_json(envelope) {
        Some(api_error) => {
            let data = APIErrorData::from(api_error);
            let msg = construct_error_msg(status.to_text(), data);
            OpenAIError::of_kind(classify_status(status.as_u16()), msg)
        },
        None => schema_mismatch(),
    }
}

/// Reads an exchange as far as every operation does: the JSON of the body
/// where the status is 200, the error in every other case.
pub fn read_exchange(exchange: Exchange) -> (r: OpenAIResult<Json>)
    ensures
        match r {
            Ok(json) => exchange_tree(exchange) == Some(json@),
            Err(e) => exchange_tree(exchange) is None && exchange_error(exchange, e),
        },
{
    match exchange {
        Exchange::Failed { reason } => Err(OpenAIError::RequestError(reason)),
        Exchange::Answered { status, body } => match Json::parse(body.as_str()) {
            Ok(json) => {
                if status.as_u16() == 200 {
                    Ok(json)
                } else {
                    Err(error_from_envelope(status, &json))
                }
            },
            Err(reason) => Err(OpenAIError::ParseError(reason)),
        },
    }
}

/// The client: the configuration that its requests are made with. It
/// builds the request of each operation and reads what came of sending it;
/// the sending itself is the caller's.
#[derive(Debug, Clone)]
pub struct Client {
    pub config: Config,
}

impl Client {
    /// Makes a client from a configuration that is fit for it.
    pub fn new(config: Config) -> (client: Client)
        requires
            config.usable(),
        ensures
            client.config == config,
    {
        Client { config }
    }

    /// The headers that every request of this client carries.
    pub fn default_headers(&self) -> (headers: Vec<Header>)
        ensures
            headers@.map_values(|h: Header| h@) == default_headers_of(self.config),
    {
        let mut bearer = String::from_str("Bearer ");
        bearer.append(self.config.openai_secret_key.as_str());
        let mut headers: Vec<Header> = Vec::new();
        headers.push(Header { name: String::from_str("Authorization"), value: bearer });
        headers.push(
            Header {
                name: String::from_str("Content-Type"),
                value: String::from_str("application/json"),
            },
        );
        match &self.config.openai_org {
            Some(org) => {
                headers.push(
                    Header { name: String::from_str("OpenAI-Organization"), value: org.clone() },
                );
            },
            None => {},
        }
        assert(headers@.map_values(|h: Header| h@) =~= default_headers_of(self.config));
        headers
    }

    /// The request that lists the models.
    pub fn get_models_request(&self) -> (request: Request)
        ensures
            request.method == Method::Get,
            request.url@ == models_url(),
            request.body is None,
    {
        Request {
            method: Method::Get,
            url: String::from_str("https://api.openai.com/v1/models"),
            body: None,
        }
    }

    /// Reads what came of the request that lists the models.
    pub fn get_models(&self, exchange: Exchange) -> (r: OpenAIResult<ModelList>)
        ensures
            match exchange_tree(exchange) {
                Some(tree) => match decode_model_list(tree) {
                    Some(v) => r matches Ok(list) && list@ == v,
                    None => r matches Err(e) && schema_error(e),
                },
                None => r matches Err(e) && exchange_error(exchange, e),
            },
    {
        let json = read_exchange(exchange)?;
        match ModelList::from_json(&json) {
            Some(list) => Ok(list),
            None => Err(schema_mismatch()),
        }
    }

    /// The request that retrieves one model.
    pub fn get_model_info_request(&self, model: &String) -> (request: Request)
        ensures
            request.method == Method::Get,
            request.url@ == model_url(model@),
            request.body is None,
    {
        let mut url = String::from_str("https://api.openai.com/v1/models/");
        url.append(model.as_str());
        Request { method: Method::Get, url, body: None }
    }

    /// Reads what came of the request that retrieves one model.
    pub fn get_model_info(&self, exchange: Exchange) -> (r: OpenAIResult<Model>)
        ensures
            match exchange_tree(exchange) {
                Some(tree) => match decode_model(tree) {
                    Some(v) => r matches Ok(model) && model@ == v,
                    None => r matches Err(e) && schema_error(e),
                },
                None => r matches Err(e) && exchange_error(exchange, e),
            },
    {
        let json = read_exchange(exchange)?;
        match Model::from_json(&json) {
            Some(model) => Ok(model),
            None => Err(schema_mismatch()),
        }
    }

    /// The request that asks for a completion: its body is the flat JSON
    /// object of the parameters.
    pub fn create_completion_request(&self, completion_params: &CompletionParams) -> (request:
        Request)
        ensures
            request.method == Method::Post,
            request.url@ == completions_url(),
            request.body matches Some(body) && body@ == printed(
                completion_params_json(completion_params@),
            ),
    {
        let body = completion_params.to_json().print();
        Request {
            method: Method::Post,
            url: String::from_str("https://api.openai.com/v1/completions"),
            body: Some(body),
        }
    }

    /// Reads what came of the request that asks for a completion.
    pub fn create_completion(&self, exchange: Exchange) -> (r: OpenAIResult<Completion>)
        ensures
            match exchange_tree(exchange) {
                Some(tree) => match decode_completion(tree) {
                    Some(v) => r matches Ok(completion) && completion@ == v,
                    None => r matches Err(e) && schema_error(e),
                },
                None => r matches Err(e) && exchange_error(exchange, e),
            },
    {
        let json = read_exchange(exchange)?;
        match Completion::from_json(&json) {
            Some(completion) => Ok(completion),
            None => Err(schema_mismatch()),
        }
    }
}

} // verus!
