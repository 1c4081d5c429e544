use openai_rust::json::Json;
use openai_rust::number::Decimal;
use openai_rust::param::{
    ChatParams, CompletionParams, EditParams, Message, OptChatParams, OptEditParams, OptParams,
    Role,
};

fn completion_params() -> CompletionParams {
    let opt_params = OptParams {
        max_tokens: 7,
        temperature: Decimal { thousandths: 0 },
        ..Default::default()
    };
    CompletionParams {
        model: String::from("text-davinci-003"),
        prompt: String::from("Say this is a test"),
        opts: opt_params,
    }
}

#[test]
fn param_test_completion_serialization() {
    let completion_params: CompletionParams = completion_params();

    let completion_serialized = completion_params.to_json().print();

    let param_json = r#"{"model":"text-davinci-003","prompt":"Say this is a test","max_tokens":7,"temperature":0.0,"suffix":null,"top_p":1.0,"n":1,"stream":false,"logprobs":null,"echo":false,"stop":null,"presence_penalty":0.0,"frequency_penalty":0.0,"best_of":1,"user":""}"#;

    assert_eq!(completion_serialized, param_json);
}

#[test]
fn types_test_completion_serialization() {
    let completion_params: CompletionParams = completion_params();

    let completion_serialized = completion_params.to_json().print();

    let param_json = r#"{"model":"text-davinci-003","prompt":"Say this is a test","max_tokens":7,"temperature":0.0,"suffix":null,"top_p":1.0,"n":1,"stream":false,"logprobs":null,"echo":false,"stop":null,"presence_penalty":0.0,"frequency_penalty":0.0,"best_of":1,"user":""}"#;

    assert_eq!(completion_serialized, param_json);
}

#[test]
fn param_test_optional_param_default_serialization() {
    let opt_params: OptParams = OptParams::default();

    let opt_serialized = opt_params.to_json().print();

    let opt_json = r#"{"max_tokens":16,"temperature":1.0,"suffix":null,"top_p":1.0,"n":1,"stream":false,"logprobs":null,"echo":false,"stop":null,"presence_penalty":0.0,"frequency_penalty":0.0,"best_of":1,"user":""}"#;

    assert_eq!(opt_serialized, opt_json);
}

#[test]
fn types_test_optional_param_default_serialization() {
    let opt_params: OptParams = OptParams::default();

    let opt_serialized = opt_params.to_json().print();

    let opt_json = r#"{"max_tokens":16,"temperature":1.0,"suffix":null,"top_p":1.0,"n":1,"stream":false,"logprobs":null,"echo":false,"stop":null,"presence_penalty":0.0,"frequency_penalty":0.0,"best_of":1,"user":""}"#;

    assert_eq!(opt_serialized, opt_json);
}

fn edit_params() -> EditParams {
    let opt_params: OptEditParams = OptEditParams::default();
    EditParams {
        model: String::from("text-davinci-edit-001"),
        input: String::from("What day of the wek is it?"),
        instruction: String::from("Fix the spelling mistakes"),
        opts: opt_params,
    }
}

#[test]
fn param_test_edit_params() {
    let edit_params: EditParams = edit_params();

    let params_serialized = edit_params.to_json().print();

    let params_json = r#"{"model":"text-davinci-edit-001","input":"What day of the wek is it?","instruction":"Fix the spelling mistakes","n":1,"temperature":1.0,"top_p":1}"#;

    assert_eq!(params_serialized, params_json);
}

#[test]
fn types_test_edit_params() {
    let edit_params: EditParams = edit_params();

    let params_serialized = edit_params.to_json().print();

    let params_json = r#"{"model":"text-davinci-edit-001","input":"What day of the wek is it?","instruction":"Fix the spelling mistakes","n":1,"temperature":1.0,"top_p":1}"#;

    assert_eq!(params_serialized, params_json);
}

#[test]
fn default_options_hold_the_documented_values() {
    let opts = OptParams::default();
    assert_eq!(opts.max_tokens, 16);
    assert_eq!(opts.temperature, Decimal { thousandths: 1000 });
    assert_eq!(opts.suffix, None);
    assert_eq!(opts.top_p, Decimal { thousandths: 1000 });
    assert_eq!(opts.n, 1);
    assert!(!opts.stream);
    assert_eq!(opts.logprobs, None);
    assert!(!opts.echo);
    assert_eq!(opts.stop, None);
    assert_eq!(opts.presence_penalty, Decimal { thousandths: 0 });
    assert_eq!(opts.frequency_penalty, Decimal { thousandths: 0 });
    assert_eq!(opts.best_of, 1);
    assert_eq!(opts.user, "");

    let edit = OptEditParams::default();
    assert_eq!(edit.num_edits, 1);
    assert_eq!(edit.temperature, Decimal { thousandths: 1000 });
    assert_eq!(edit.top_p, 1);
}

#[test]
fn completion_params_round_trip_through_text() {
    let params = CompletionParams {
        model: String::from("text-davinci-003"),
        prompt: String::from("Say \"this\" is a test\n"),
        opts: OptParams {
            max_tokens: 256,
            temperature: Decimal { thousandths: 700 },
            suffix: Some(String::from("end")),
            top_p: Decimal { thousandths: 125 },
            n: 3,
            stream: true,
            logprobs: Some(5),
            echo: true,
            stop: Some(String::from("\n")),
            presence_penalty: Decimal { thousandths: -2000 },
            frequency_penalty: Decimal { thousandths: 1999 },
            best_of: 4,
            user: String::from("user-1"),
        },
    };
    let text = params.to_json().print();
    let back = CompletionParams::from_json(&Json::parse(&text).unwrap()).unwrap();
    assert_eq!(back.model, params.model);
    assert_eq!(back.prompt, params.prompt);
    assert_eq!(back.opts.max_tokens, 256);
    assert_eq!(back.opts.temperature, Decimal { thousandths: 700 });
    assert_eq!(back.opts.suffix, Some(String::from("end")));
    assert_eq!(back.opts.top_p, Decimal { thousandths: 125 });
    assert_eq!(back.opts.n, 3);
    assert!(back.opts.stream);
    assert_eq!(back.opts.logprobs, Some(5));
    assert!(back.opts.echo);
    assert_eq!(back.opts.stop, Some(String::from("\n")));
    assert_eq!(back.opts.presence_penalty, Decimal { thousandths: -2000 });
    assert_eq!(back.opts.frequency_penalty, Decimal { thousandths: 1999 });
    assert_eq!(back.opts.best_of, 4);
    assert_eq!(back.opts.user, "user-1");
}

#[test]
fn default_completion_params_round_trip_through_text() {
    let params = CompletionParams {
        model: String::from("text-davinci-003"),
        prompt: String::from("Say this is a test"),
        opts: OptParams::default(),
    };
    let text = params.to_json().print();
    let back = CompletionParams::from_json(&Json::parse(&text).unwrap()).unwrap();
    assert_eq!(back.to_json().print(), text);
    assert_eq!(back.opts.max_tokens, 16);
    assert_eq!(back.opts.temperature, Decimal { thousandths: 1000 });
    assert_eq!(back.opts.user, "");
}

#[test]
fn absent_optional_members_are_read_as_none() {
    let text = r#"{"model":"m","prompt":"p","max_tokens":16,"temperature":1.0,"top_p":1.0,"n":1,"stream":false,"echo":false,"presence_penalty":0.0,"frequency_penalty":0.0,"best_of":1,"user":"","extra":[1,2]}"#;
    let params = CompletionParams::from_json(&Json::parse(text).unwrap()).unwrap();
    assert_eq!(params.opts.suffix, None);
    assert_eq!(params.opts.logprobs, None);
    assert_eq!(params.opts.stop, None);
}

#[test]
fn missing_required_member_is_rejected() {
    let text = r#"{"model":"m","max_tokens":16,"temperature":1.0,"top_p":1.0,"n":1,"stream":false,"echo":false,"presence_penalty":0.0,"frequency_penalty":0.0,"best_of":1,"user":""}"#;
    assert!(CompletionParams::from_json(&Json::parse(text).unwrap()).is_none());
    let nested = r#"{"model":"m","prompt":"p","opts":{"max_tokens":16,"temperature":1.0,"top_p":1.0,"n":1,"stream":false,"echo":false,"presence_penalty":0.0,"frequency_penalty":0.0,"best_of":1,"user":""}}"#;
    assert!(CompletionParams::from_json(&Json::parse(nested).unwrap()).is_none());
}

#[test]
fn edit_params_round_trip_through_text() {
    let text = edit_params().to_json().print();
    let back = EditParams::from_json(&Json::parse(&text).unwrap()).unwrap();
    assert_eq!(back.model, "text-davinci-edit-001");
    assert_eq!(back.input, "What day of the wek is it?");
    assert_eq!(back.instruction, "Fix the spelling mistakes");
    assert_eq!(back.opts.num_edits, 1);
    assert_eq!(back.opts.temperature, Decimal { thousandths: 1000 });
    assert_eq!(back.opts.top_p, 1);
}

#[test]
fn chat_params_are_flat_and_keep_the_order_of_messages() {
    let params = ChatParams {
        model: String::from("gpt-3.5-turbo"),
        messages: vec![
            Message { role: Role::System, content: String::from("Be brief.") },
            Message { role: Role::User, content: String::from("Hello") },
        ],
        opt: OptChatParams {
            temperature: Decimal { thousandths: 1000 },
            top_p: Decimal { thousandths: 1000 },
            n: 1,
            stream: false,
            stop: None,
            max_tokens: Some(64),
            presence_penalty: Decimal { thousandths: 0 },
            frequency_penalty: Decimal { thousandths: 0 },
            user: String::new(),
        },
    };
    let text = params.to_json().print();
    assert_eq!(
        text,
        r#"{"model":"gpt-3.5-turbo","messages":[{"role":"System","content":"Be brief."},{"role":"User","content":"Hello"}],"temperature":1.0,"top_p":1.0,"n":1,"stream":false,"stop":null,"max_tokens":64,"presence_penalty":0.0,"frequency_penalty":0.0,"user":""}"#
    );
    let back = ChatParams::from_json(&Json::parse(&text).unwrap()).unwrap();
    assert_eq!(back.messages.len(), 2);
    assert_eq!(back.messages[0].role, Role::System);
    assert_eq!(back.messages[1].content, "Hello");
    assert_eq!(back.opt.max_tokens, Some(64));
}

#[test]
fn unknown_role_is_rejected() {
    let text = r#"{"role":"user","content":"Hello"}"#;
    assert!(Message::from_json(&Json::parse(text).unwrap()).is_none());
}
