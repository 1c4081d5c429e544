use openai_rust::error::{
    classify_status, construct_error_msg, APIError, APIErrorData, ErrorKind, OpenAIError,
};
use openai_rust::json::Json;

fn envelope(error_data: &str) -> Option<APIError> {
    APIError::from_json(&Json::parse(error_data).expect("Deserialize failed"))
}

#[test]
fn test_api_error_full() {
    let error_data = r#"
        {
            "error": {
                "message": "The model 'text-davinci-007' does not exist",
                "type": "invalid_request_error",
                "param": "model",
                "code": "model_not_found"
            }
        }
        "#;

    let de_error: APIErrorData = envelope(error_data).expect("Deserialize failed").into();

    assert_eq!(
        de_error.message,
        String::from("The model 'text-davinci-007' does not exist")
    );
    assert_eq!(de_error.kind, String::from("invalid_request_error"));
    assert_eq!(de_error.param, Some(String::from("model")));
    assert_eq!(de_error.code, Some(String::from("model_not_found")));
}

#[test]
fn test_api_error_partial() {
    let error_data = r#"
        {
            "error": {
                "message": "The model 'text-davinci-007' does not exist",
                "type": "invalid_request_error",
                "param": null,
                "code": null
            }
        }
        "#;

    let de_error: APIErrorData = envelope(error_data).expect("Deserialize failed").into();

    assert_eq!(
        de_error.message,
        String::from("The model 'text-davinci-007' does not exist")
    );
    assert_eq!(de_error.kind, String::from("invalid_request_error"));
    assert_eq!(de_error.code, None);
    assert_eq!(de_error.param, None);
}

#[test]
fn param_and_code_stay_apart() {
    let only_param = r#"{"error": {"message": "m", "type": "t", "param": "model"}}"#;
    let data: APIErrorData = envelope(only_param).unwrap().into();
    assert_eq!(data.param, Some(String::from("model")));
    assert_eq!(data.code, None);
    let only_code = r#"{"error": {"message": "m", "type": "t", "code": "model_not_found"}}"#;
    let data: APIErrorData = envelope(only_code).unwrap().into();
    assert_eq!(data.param, None);
    assert_eq!(data.code, Some(String::from("model_not_found")));
    let same = r#"{"error": {"message": "m", "type": "t", "param": "x", "code": "x"}}"#;
    let data: APIErrorData = envelope(same).unwrap().into();
    assert_eq!(data.param, data.code);
}

#[test]
fn envelope_needs_message_and_type() {
    assert!(envelope(r#"{"error": {"message": "m"}}"#).is_none());
    assert!(envelope(r#"{"error": {"type": "t"}}"#).is_none());
    assert!(envelope(r#"{"message": "m", "type": "t"}"#).is_none());
    assert!(envelope(r#"{"error": {"message": "m", "type": "t", "param": 3}}"#).is_none());
    assert!(envelope(r#"{"error": "broken"}"#).is_none());
}

#[test]
fn error_message_has_status_message_and_type() {
    let data = APIErrorData {
        message: String::from("The model 'chatgpt' does not exist"),
        kind: String::from("invalid_request_error"),
        param: None,
        code: None,
    };
    assert_eq!(
        construct_error_msg(String::from("404"), data),
        "[404] | [The model 'chatgpt' does not exist] \n [invalid_request_error]"
    );
    let empty = APIErrorData {
        message: String::new(),
        kind: String::new(),
        param: None,
        code: None,
    };
    assert_eq!(construct_error_msg(String::new(), empty), "[] | [] \n []");
}

#[test]
fn statuses_are_classified() {
    assert_eq!(classify_status(401), ErrorKind::Authentication);
    assert_eq!(classify_status(404), ErrorKind::InternalAPI);
    assert_eq!(classify_status(429), ErrorKind::RateLimit);
    assert_eq!(classify_status(500), ErrorKind::Server);
    assert_eq!(classify_status(400), ErrorKind::Other);
    assert_eq!(classify_status(403), ErrorKind::Other);
    assert_eq!(classify_status(418), ErrorKind::Other);
    assert_eq!(classify_status(502), ErrorKind::Other);
    assert_eq!(classify_status(503), ErrorKind::Other);
    assert_eq!(classify_status(201), ErrorKind::Other);
    assert_eq!(classify_status(301), ErrorKind::Other);
}

#[test]
fn each_kind_wraps_the_message() {
    let msg = || String::from("m");
    assert!(matches!(
        OpenAIError::of_kind(ErrorKind::InternalAPI, msg()),
        OpenAIError::InternalAPIError(m) if m == "m"
    ));
    assert!(matches!(
        OpenAIError::of_kind(ErrorKind::Authentication, msg()),
        OpenAIError::AuthenticationError(m) if m == "m"
    ));
    assert!(matches!(
        OpenAIError::of_kind(ErrorKind::RateLimit, msg()),
        OpenAIError::RateLimitError(m) if m == "m"
    ));
    assert!(matches!(
        OpenAIError::of_kind(ErrorKind::Server, msg()),
        OpenAIError::ServerError(m) if m == "m"
    ));
    assert!(matches!(
        OpenAIError::of_kind(ErrorKind::Other, msg()),
        OpenAIError::OtherError(m) if m == "m"
    ));
}

#[test]
fn each_error_has_its_text() {
    let msg = || String::from("m");
    assert_eq!(OpenAIError::InternalAPIError(msg()).to_text(), "Internal API Error: m");
    assert_eq!(OpenAIError::AuthenticationError(msg()).to_text(), "Error: m");
    assert_eq!(OpenAIError::RateLimitError(msg()).to_text(), "Rate Limit Error: m");
    assert_eq!(OpenAIError::ServerError(msg()).to_text(), "Server Error: m");
    assert_eq!(OpenAIError::OtherError(msg()).to_text(), "Other Error: m");
    assert_eq!(OpenAIError::RequestError(msg()).to_text(), "Unable to process request: m");
    assert_eq!(
        OpenAIError::ParseError(msg()).to_text(),
        "Unable to parse response into valid JSON: m"
    );
    assert_eq!(OpenAIError::UnknownError.to_text(), "Unknown Error happened");
}
