use openai_rust::construct::{
    ChatCompletion, Choice, Completion, EditedPrompt, Model, ModelList, Permission, Usage,
};
use openai_rust::json::Json;

const USAGE_DATA: &str = r#"
    {
        "prompt_tokens": 5,
        "completion_tokens": 7,
        "total_tokens": 12
    }
        "#;

const COMPLETION_DATA: &str = r#"
        {
            "id": "cmpl-6wNHLLAa4l0GkmSZHb3Y9wM9G6IWS",
            "object": "text_completion",
            "created": 1679370527,
            "model": "text-davinci-003",
            "choices": [
                {
                    "text": "\n\nThis is indeed a test",
                    "index": 0,
                    "logprobs": null,
                    "finish_reason": "length"
                }
            ],
            "usage": {
                "prompt_tokens": 5,
                "completion_tokens": 7,
                "total_tokens": 12
            }
        }"#;

const MODEL_DATA: &str = r#"{
    "id": "text-davinci-003",
    "object": "model",
    "created": 1669599635,
    "owned_by": "openai-internal",
    "permission": [
        {
            "id": "modelperm-1",
            "object": "model_permission",
            "created": 1679355287,
            "allow_create_engine": false,
            "allow_sampling": true,
            "allow_logprobs": true,
            "allow_search_indices": false,
            "allow_view": true,
            "allow_fine_tuning": false,
            "organization": "*",
            "group": null,
            "is_blocking": false
        },
        {
            "id": "modelperm-2",
            "object": "model_permission",
            "created": null,
            "allow_create_engine": true,
            "allow_sampling": false,
            "allow_logprobs": false,
            "allow_search_indices": true,
            "allow_view": false,
            "allow_fine_tuning": true,
            "organization": "org-1",
            "group": "g",
            "is_blocking": true
        }
    ],
    "root": "text-davinci-003",
    "parent": null
}"#;

#[test]
fn construct_test_usage_deserialization() {
    let deserialized_usage_data: Usage =
        Usage::from_json(&Json::parse(USAGE_DATA).unwrap()).unwrap();

    assert_eq!(
        vec![
            deserialized_usage_data.prompt_tokens,
            deserialized_usage_data.completion_tokens,
            deserialized_usage_data.total_tokens
        ],
        vec![5, 7, 12]
    );
}

#[test]
fn types_test_usage_deserialization() {
    let deserialized_usage_data: Usage =
        Usage::from_json(&Json::parse(USAGE_DATA).unwrap()).unwrap();

    assert_eq!(
        vec![
            deserialized_usage_data.prompt_tokens,
            deserialized_usage_data.completion_tokens,
            deserialized_usage_data.total_tokens
        ],
        vec![5, 7, 12]
    );
}

#[test]
fn construct_test_completion_deserialization() {
    let deserialized_completion_data: Completion =
        Completion::from_json(&Json::parse(COMPLETION_DATA).unwrap()).unwrap();

    assert_eq!(
        deserialized_completion_data.choices.get(0).unwrap().text,
        "\n\nThis is indeed a test"
    );
}

#[test]
fn types_test_completion_deserialization() {
    let deserialized_completion_data: Completion =
        Completion::from_json(&Json::parse(COMPLETION_DATA).unwrap()).unwrap();

    assert_eq!(
        deserialized_completion_data.choices.get(0).unwrap().text,
        "\n\nThis is indeed a test"
    );
}

#[test]
fn completion_holds_every_member() {
    let completion = Completion::from_json(&Json::parse(COMPLETION_DATA).unwrap()).unwrap();
    assert_eq!(completion.id, "cmpl-6wNHLLAa4l0GkmSZHb3Y9wM9G6IWS");
    assert_eq!(completion.object, "text_completion");
    assert_eq!(completion.created, Some(1679370527));
    assert_eq!(completion.model, "text-davinci-003");
    assert_eq!(completion.choices.len(), 1);
    assert_eq!(completion.choices[0].index, 0);
    assert_eq!(completion.choices[0].logprobs, None);
    assert_eq!(completion.choices[0].finish_reason, "length");
    assert_eq!(
        completion.usage,
        Usage { prompt_tokens: 5, completion_tokens: 7, total_tokens: 12 }
    );
}

#[test]
fn usage_out_of_range_is_rejected() {
    let big = r#"{"prompt_tokens": 65536, "completion_tokens": 7, "total_tokens": 12}"#;
    assert_eq!(Usage::from_json(&Json::parse(big).unwrap()), None);
    let edge = r#"{"prompt_tokens": 65535, "completion_tokens": 0, "total_tokens": 12}"#;
    assert_eq!(
        Usage::from_json(&Json::parse(edge).unwrap()),
        Some(Usage { prompt_tokens: 65535, completion_tokens: 0, total_tokens: 12 })
    );
    let negative = r#"{"prompt_tokens": -1, "completion_tokens": 7, "total_tokens": 12}"#;
    assert_eq!(Usage::from_json(&Json::parse(negative).unwrap()), None);
    let real = r#"{"prompt_tokens": 5.0, "completion_tokens": 7, "total_tokens": 12}"#;
    assert_eq!(Usage::from_json(&Json::parse(real).unwrap()), None);
    let missing = r#"{"prompt_tokens": 5, "completion_tokens": 7}"#;
    assert_eq!(Usage::from_json(&Json::parse(missing).unwrap()), None);
    assert_eq!(Usage::from_json(&Json::parse("[5, 7, 12]").unwrap()), None);
}

#[test]
fn choice_needs_its_text() {
    let choice = r#"{"text": "a", "index": 2, "logprobs": 3, "finish_reason": "stop"}"#;
    let read = Choice::from_json(&Json::parse(choice).unwrap()).unwrap();
    assert_eq!(read.text, "a");
    assert_eq!(read.index, 2);
    assert_eq!(read.logprobs, Some(3));
    assert_eq!(read.finish_reason, "stop");
    let no_text = r#"{"index": 2, "logprobs": 3, "finish_reason": "stop"}"#;
    assert!(Choice::from_json(&Json::parse(no_text).unwrap()).is_none());
}

#[test]
fn completion_with_a_broken_choice_is_rejected() {
    let text = COMPLETION_DATA.replace(r#""index": 0"#, r#""index": "0""#);
    assert!(Completion::from_json(&Json::parse(&text).unwrap()).is_none());
}

#[test]
fn created_must_be_there_and_may_be_null() {
    let null = COMPLETION_DATA.replace("1679370527", "null");
    let completion = Completion::from_json(&Json::parse(&null).unwrap()).unwrap();
    assert_eq!(completion.created, None);
    let missing = COMPLETION_DATA.replace(r#""created": 1679370527,"#, "");
    assert!(Completion::from_json(&Json::parse(&missing).unwrap()).is_none());
    let text = COMPLETION_DATA.replace("1679370527", "\"now\"");
    assert!(Completion::from_json(&Json::parse(&text).unwrap()).is_none());
}

#[test]
fn created_must_stand_for_a_date() {
    let far = COMPLETION_DATA.replace("1679370527", "9223372036854775807");
    assert!(Completion::from_json(&Json::parse(&far).unwrap()).is_none());
    let early = COMPLETION_DATA.replace("1679370527", "-9223372036854775808");
    assert!(Completion::from_json(&Json::parse(&early).unwrap()).is_none());
    let before_1970 = COMPLETION_DATA.replace("1679370527", "-86400");
    let completion = Completion::from_json(&Json::parse(&before_1970).unwrap()).unwrap();
    assert_eq!(completion.created, Some(-86400));
}

#[test]
fn model_keeps_its_permissions_in_order() {
    let model = Model::from_json(&Json::parse(MODEL_DATA).unwrap()).unwrap();
    assert_eq!(model.id, "text-davinci-003");
    assert_eq!(model.object, "model");
    assert_eq!(model.created, Some(1669599635));
    assert_eq!(model.owned_by, "openai-internal");
    assert_eq!(model.root, "text-davinci-003");
    assert_eq!(model.parent, None);
    assert_eq!(model.permission.len(), 2);
    let first: &Permission = &model.permission[0];
    assert_eq!(first.id, "modelperm-1");
    assert_eq!(first.object, "model_permission");
    assert_eq!(first.created, Some(1679355287));
    assert!(!first.allow_create_engine);
    assert!(first.allow_sampling);
    assert!(first.allow_logprobs);
    assert!(!first.allow_search_indices);
    assert!(first.allow_view);
    assert!(!first.allow_fine_tuning);
    assert_eq!(first.organization, "*");
    assert_eq!(first.group, None);
    assert!(!first.is_blocking);
    let second = &model.permission[1];
    assert_eq!(second.id, "modelperm-2");
    assert_eq!(second.created, None);
    assert_eq!(second.group, Some(String::from("g")));
    assert!(second.is_blocking);
}

#[test]
fn model_without_root_is_rejected() {
    let text = MODEL_DATA.replace(r#""root": "text-davinci-003","#, "");
    assert!(Model::from_json(&Json::parse(&text).unwrap()).is_none());
}

#[test]
fn model_list_has_one_model_for_each_item() {
    let text = format!(r#"{{"object": "list", "data": [{}, {}]}}"#, MODEL_DATA, MODEL_DATA);
    let list = ModelList::from_json(&Json::parse(&text).unwrap()).unwrap();
    assert_eq!(list.object, "list");
    assert_eq!(list.data.len(), 2);
    assert_eq!(list.data[1].id, "text-davinci-003");
    let empty = ModelList::from_json(&Json::parse(r#"{"object":"list","data":[]}"#).unwrap());
    assert_eq!(empty.unwrap().data.len(), 0);
    let broken = r#"{"object": "list", "data": [{"id": "x"}]}"#;
    assert!(ModelList::from_json(&Json::parse(broken).unwrap()).is_none());
    let no_array = r#"{"object": "list", "data": {}}"#;
    assert!(ModelList::from_json(&Json::parse(no_array).unwrap()).is_none());
}

#[test]
fn replies_without_a_schema_take_any_object() {
    let object = Json::parse(r#"{"id": "chatcmpl-1"}"#).unwrap();
    assert_eq!(ChatCompletion::from_json(&object), Some(ChatCompletion {}));
    assert_eq!(EditedPrompt::from_json(&object), Some(EditedPrompt {}));
    let text = Json::parse(r#""chatcmpl-1""#).unwrap();
    assert_eq!(ChatCompletion::from_json(&text), None);
    assert_eq!(EditedPrompt::from_json(&text), None);
}

#[test]
fn every_second_up_to_the_year_9999_is_a_date() {
    for seconds in ["0", "1", "86399", "1679370527", "253402300799"] {
        let text = COMPLETION_DATA.replace("1679370527", seconds);
        let completion = Completion::from_json(&Json::parse(&text).unwrap()).unwrap();
        assert_eq!(completion.created, Some(seconds.parse().unwrap()));
    }
}
